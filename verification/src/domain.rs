//! Validated value objects for subscriber identity: display name and
//! email address. Raw strings enter the rest of the system only after
//! passing through these parsers.

pub mod new_subscriber;
pub mod subscriber_email;
pub mod subscriber_name;

pub use new_subscriber::NewSubscriber;
pub use subscriber_email::SubscriberEmail;
pub use subscriber_name::SubscriberName;
