use vstd::prelude::*;

use crate::domain::subscriber_email::email_valid;
use crate::domain::SubscriberEmail;

verus! {

/// Settings of the outbound email transport, as configuration hands
/// them over.
#[derive(Clone)]
pub struct EmailClientSettings {
    pub base_url: String,
    pub sender_email: String,
    pub authorization_token: String,
    pub timeout_milliseconds: u64,
}

pub assume_specification[ core::time::Duration::from_millis ](millis: u64)
    -> core::time::Duration;

impl EmailClientSettings {
    /// The configured sender address, validated like any subscriber
    /// address.
    pub fn sender(&self) -> (r: Result<SubscriberEmail, String>)
        ensures
            match r {
                Ok(e) => email_valid(self.sender_email@) && e@ == self.sender_email@,
                Err(_) => !email_valid(self.sender_email@),
            },
    {
        SubscriberEmail::parse(self.sender_email.clone())
    }

    /// The configured transport timeout.
    pub fn timeout(&self) -> core::time::Duration {
        core::time::Duration::from_millis(self.timeout_milliseconds)
    }
}

/// The deployment environments the application distinguishes.
pub enum Environment {
    Local,
    Production,
}

impl Environment {
    /// The canonical lower-case name of the environment.
    pub fn as_str(&self) -> (r: &'static str)
        ensures
            matches!(self, Environment::Local) ==> r@ == "local"@,
            matches!(self, Environment::Production) ==> r@ == "production"@,
    {
        match self {
            Environment::Local => "local",
            Environment::Production => "production",
        }
    }
}

} // verus!
