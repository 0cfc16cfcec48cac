//! Double opt-in mailing-list core: validated subscriber identities, a
//! transactional subscription store, confirmation-token issuance and
//! redemption, and a newsletter fan-out dispatcher.

pub mod configuration;
pub mod domain;
pub mod newsletters;
pub mod store;
pub mod subscriptions;
pub mod subscriptions_confirm;
pub mod send_email;
pub mod token;
