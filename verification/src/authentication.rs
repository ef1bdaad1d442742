use vstd::prelude::*;
use vstd::string::StringExecFns;

use crate::store::credentials_user_id;
use crate::store::credentials_valid;
use crate::store::SubscriberStore;

verus! {

/// Why credential validation failed; the payload describes the cause.
/// An unknown username and a wrong password are deliberately not told
/// apart.
pub enum AuthError {
    InvalidCredentialsError(String),
    UnexpectedError(String),
}

/// Credentials as submitted with one request; never persisted.
#[derive(Clone, Debug)]
pub struct Credentials {
    pub username: String,
    pub password: String,
}

/// Checks the submitted credentials against the stored accounts: the
/// stored identifier when username and password both match, and the
/// same InvalidCredentialsError whether the username is unknown or the
/// password is wrong.
pub fn validate_credentials(credentials: Credentials, store: &SubscriberStore) -> (r: Result<
    u64,
    AuthError,
>)
    requires
        store.wf(),
    ensures
        match r {
            Ok(uid) => credentials_valid(store@, credentials.username@, credentials.password@)
                && uid == credentials_user_id(
                store@,
                credentials.username@,
                credentials.password@,
            ),
            Err(e) => !credentials_valid(store@, credentials.username@, credentials.password@)
                && e matches AuthError::InvalidCredentialsError(_),
        },
{
    match store.lookup_user(credentials.username.as_str(), credentials.password.as_str()) {
        Some(uid) => Ok(uid),
        None => Err(
            AuthError::InvalidCredentialsError(String::from_str("Invalid username or password")),
        ),
    }
}

} // verus!
