use vstd::prelude::*;
use vstd::string::StringExecFns;

use crate::authentication::validate_credentials;
use crate::authentication::AuthError;
use crate::authentication::Credentials;
use crate::store::credentials_valid;
use crate::store::SubscriberStore;

verus! {

/// The optional error text the login form is asked to show.
pub struct QueryParams {
    pub error: Option<String>,
}

/// The raw form fields a login request carries.
pub struct LoginFormData {
    pub username: String,
    pub password: String,
}

/// Why a login failed; each payload describes the cause.
#[derive(Debug)]
pub enum LoginError {
    AuthError(String),
    UnexpectedError(String),
}

impl LoginError {
    /// The one-line description shown to the operator: a fixed phrase
    /// for an authentication failure, which never names the factor that
    /// was wrong.
    pub fn message(&self) -> (r: String)
        ensures
            match self {
                LoginError::AuthError(_) => r@ == "Auth failed"@,
                LoginError::UnexpectedError(m) => r@ == m@,
            },
    {
        match self {
            LoginError::AuthError(_) => String::from_str("Auth failed"),
            LoginError::UnexpectedError(m) => m.clone(),
        }
    }

    /// The login endpoint always answers with a redirect.
    pub fn status_code(&self) -> (r: u16)
        ensures
            r == 303,
    {
        303
    }
}

/// What the login endpoint answers: always a redirect, either home on
/// success or back to the form together with a one-shot error message.
pub struct LoginResponse {
    pub status: u16,
    pub location: String,
    pub flash: Option<String>,
}

/// Decides a login request: valid credentials redirect home with no
/// message; anything else redirects back to the form and leaves the
/// fixed one-shot message behind.
pub fn login(store: &SubscriberStore, form: LoginFormData) -> (r: LoginResponse)
    requires
        store.wf(),
    ensures
        r.status == 303,
        credentials_valid(store@, form.username@, form.password@) ==> r.location@ == "/"@
            && r.flash is None,
        !credentials_valid(store@, form.username@, form.password@) ==> r.location@ == "/login"@
            && (r.flash matches Some(m) && m@ == "Auth failed"@),
{
    let credentials = Credentials { username: form.username, password: form.password };
    match validate_credentials(credentials, store) {
        Ok(_) => LoginResponse { status: 303, location: String::from_str("/"), flash: None },
        Err(e) => {
            let e = match e {
                AuthError::InvalidCredentialsError(m) => LoginError::AuthError(m),
                AuthError::UnexpectedError(m) => LoginError::UnexpectedError(m),
            };
            LoginResponse {
                status: 303,
                location: String::from_str("/login"),
                flash: Some(e.message()),
            }
        },
    }
}

/// The one-shot slot behind the login form: a message put into it is
/// readable exactly once, and reading it clears it.
pub struct FlashSlot {
    message: Option<String>,
}

impl FlashSlot {
    /// The message waiting to be shown, if any.
    pub closed spec fn pending(&self) -> Option<Seq<char>> {
        match self.message {
            Some(m) => Some(m@),
            None => None,
        }
    }

    /// An empty slot.
    pub fn new() -> (r: FlashSlot)
        ensures
            r.pending() is None,
    {
        FlashSlot { message: None }
    }

    /// Leaves a message for the next rendering; an unread earlier
    /// message is replaced.
    pub fn post(&mut self, message: String)
        ensures
            final(self).pending() == Some(message@),
    {
        self.message = Some(message);
    }

    /// Hands the pending message out and clears it: a second take, with
    /// nothing posted in between, finds nothing.
    pub fn take(&mut self) -> (r: Option<String>)
        ensures
            final(self).pending() is None,
            match r {
                Some(m) => old(self).pending() == Some(m@),
                None => old(self).pending() is None,
            },
    {
        let r = match &self.message {
            Some(m) => Some(m.clone()),
            None => None,
        };
        self.message = None;
        r
    }
}

/// What HTML entity encoding makes of one character: each of the five
/// characters that have a minimal entity becomes that entity, every
/// other character stays itself.
pub open spec fn html_escaped_char(c: char) -> Seq<char> {
    if c == '"' {
        seq!['&', 'q', 'u', 'o', 't', ';']
    } else if c == '&' {
        seq!['&', 'a', 'm', 'p', ';']
    } else if c == '\'' {
        seq!['&', '#', 'x', '2', '7', ';']
    } else if c == '<' {
        seq!['&', 'l', 't', ';']
    } else if c == '>' {
        seq!['&', 'g', 't', ';']
    } else {
        seq![c]
    }
}

/// What HTML entity encoding makes of a string: every character
/// replaced by its encoding, in order.
pub open spec fn html_escaped(s: Seq<char>) -> Seq<char>
    decreases s.len(),
{
    if s.len() == 0 {
        Seq::empty()
    } else {
        html_escaped(s.drop_last()) + html_escaped_char(s.last())
    }
}

/// Relies on htmlescape::encode_minimal: it replaces exactly the five
/// characters of its minimal entity table and keeps every other
/// character, in order.
#[verifier::external_body]
fn encode_minimal(s: &str) -> (r: String)
    ensures
        r@ == html_escaped(s@),
{
    htmlescape::encode_minimal(s)
}

/// The paragraph the login form shows above itself when an error
/// message is pending, with the message entity-encoded.
pub fn login_error_fragment(message: &str) -> (r: String)
    ensures
        r@ == "<p><i>"@ + html_escaped(message@) + "</i></p>"@,
{
    let encoded = encode_minimal(message);
    let mut s = String::from_str("<p><i>");
    s.append(encoded.as_str());
    s.append("</i></p>");
    s
}

} // verus!
