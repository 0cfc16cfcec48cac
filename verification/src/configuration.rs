//! Process configuration as plain values. Loading these from files or
//! the environment is the surrounding binary's job; the core only holds
//! them and validates the outbound sender address.

use crate::domain::subscriber_email::{is_valid_email, SubscriberEmail};
use vstd::prelude::*;

verus! {

/// Everything the process needs to run.
pub struct Settings {
    pub database: DatabaseSettings,
    pub application: ApplicationSettings,
    pub email_client: EmailClientSettings,
}

/// The outbound email identity and credential.
pub struct EmailClientSettings {
    pub base_url: String,
    pub sender_email: String,
    pub auth_token: String,
}

impl EmailClientSettings {
    /// The configured sender as a validated address; rejected exactly
    /// when the configured string is not a syntactically valid email.
    pub fn sender(&self) -> (r: Result<SubscriberEmail, String>)
        ensures
            r is Ok <==> is_valid_email(self.sender_email@),
            r matches Ok(e) ==> e@ == self.sender_email@,
            r matches Err(e) ==> e@ == self.sender_email@
                + " is not a valid subscriber email address."@,
    {
        SubscriberEmail::parse(self.sender_email.clone())
    }
}

/// Where the application listens.
pub struct ApplicationSettings {
    pub port: u16,
    pub host: String,
}

/// How to reach the data store.
pub struct DatabaseSettings {
    pub username: String,
    pub password: String,
    pub port: u16,
    pub host: String,
    pub database_name: String,
}

} // verus!
