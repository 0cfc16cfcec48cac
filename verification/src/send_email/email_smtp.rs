//! The SMTP gateway's configuration: a validated sender address and the
//! relay credential. Sending itself is network I/O performed by the
//! surrounding binary; this type guarantees the sender is valid.

use crate::domain::subscriber_email::SubscriberEmail;
use vstd::prelude::*;

verus! {

/// Credentials for the SMTP relay: who the mail is from, and the token
/// that authenticates the sender.
pub struct EmailSmtp {
    sender: SubscriberEmail,
    amtp_token: String,
}

impl EmailSmtp {
    /// The sender address.
    pub closed spec fn spec_sender(&self) -> Seq<char> {
        self.sender@
    }

    /// The relay credential.
    pub closed spec fn spec_auth_token(&self) -> Seq<char> {
        self.amtp_token@
    }

    /// Bundle a validated sender with its relay credential.
    pub fn new(sender: SubscriberEmail, amtp_token: String) -> (r: EmailSmtp)
        ensures
            r.spec_sender() == sender@,
            r.spec_auth_token() == amtp_token@,
    {
        EmailSmtp { sender, amtp_token }
    }

    /// Read-only view of the sender address.
    pub fn sender(&self) -> (r: &SubscriberEmail)
        ensures
            r@ == self.spec_sender(),
    {
        &self.sender
    }

    /// Read-only view of the relay credential.
    pub fn auth_token(&self) -> (r: &str)
        ensures
            r@ == self.spec_auth_token(),
    {
        self.amtp_token.as_str()
    }
}

} // verus!
