use vstd::prelude::*;
use vstd::string::StringExecFns;

verus! {

/// The wire form of one outbound send: the fields the email transport
/// expects, borrowed from their owners.
pub struct SendEmailRequest<'a> {
    pub from: &'a str,
    pub to: &'a str,
    pub subject: &'a str,
    pub html_content: &'a str,
    pub text_content: &'a str,
}

impl<'a> SendEmailRequest<'a> {
    /// Assembles the wire form of a send verbatim from its parts.
    pub fn new(
        from: &'a str,
        to: &'a str,
        subject: &'a str,
        html_content: &'a str,
        text_content: &'a str,
    ) -> (r: SendEmailRequest<'a>)
        ensures
            r.from@ == from@,
            r.to@ == to@,
            r.subject@ == subject@,
            r.html_content@ == html_content@,
            r.text_content@ == text_content@,
    {
        SendEmailRequest { from, to, subject, html_content, text_content }
    }
}

/// The endpoint a send is posted to, under the transport's base URL.
pub open spec fn send_endpoint(base_url: Seq<char>) -> Seq<char> {
    base_url + "/email"@
}

/// Builds the URL a send is posted to.
pub fn send_url(base_url: &str) -> (r: String)
    ensures
        r@ == send_endpoint(base_url@),
{
    let mut s = String::from_str(base_url);
    s.append("/email");
    s
}

} // verus!
