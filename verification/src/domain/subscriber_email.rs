use vstd::prelude::*;
use vstd::string::StringExecFns;

verus! {

/// Whether a string is a valid email address, as decided by the
/// address grammar this crate delegates to. The result depends on the
/// characters of the string alone.
pub uninterp spec fn email_valid(s: Seq<char>) -> bool;

/// Relies on validator::validate_email: validity of an email address is
/// a function of the characters of the string alone.
#[verifier::external_body]
pub(crate) fn validate_email_str(s: &str) -> (r: bool)
    ensures
        r == email_valid(s@),
{
    validator::validate_email(s)
}

/// An email address that has passed validation; the wrapped string is
/// kept verbatim.
#[derive(Debug)]
pub struct SubscriberEmail(String);

impl View for SubscriberEmail {
    type V = Seq<char>;

    closed spec fn view(&self) -> Seq<char> {
        self.0@
    }
}

impl SubscriberEmail {
    /// Accepts the string verbatim when it is a valid email address,
    /// rejects it with a message otherwise.
    pub fn parse(s: String) -> (r: Result<SubscriberEmail, String>)
        ensures
            match r {
                Ok(e) => email_valid(s@) && e@ == s@,
                Err(m) => !email_valid(s@) && m@ == s@ + " is not a valid email address"@,
            },
    {
        if validate_email_str(s.as_str()) {
            Ok(SubscriberEmail(s))
        } else {
            Err(s.concat(" is not a valid email address"))
        }
    }

    /// The underlying string.
    pub fn as_ref(&self) -> (r: &str)
        ensures
            r@ == self@,
    {
        self.0.as_str()
    }
}

} // verus!
