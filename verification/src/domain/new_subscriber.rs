//! A fully validated subscription request: the pair of value objects a
//! raw form submission becomes once both fields pass their parsers.

use crate::domain::subscriber_email::SubscriberEmail;
use crate::domain::subscriber_name::SubscriberName;
use vstd::prelude::*;

verus! {

/// A validated (email, name) pair, ready to be persisted.
pub struct NewSubscriber {
    pub email: SubscriberEmail,
    pub name: SubscriberName,
}

} // verus!
