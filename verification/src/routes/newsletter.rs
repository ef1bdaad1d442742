use vstd::prelude::*;
use vstd::string::StrSliceExecFns;
use vstd::string::StringExecFns;

use crate::authentication::validate_credentials;
use crate::authentication::AuthError;
use crate::authentication::Credentials;
use crate::domain::subscriber_email::email_valid;
use crate::domain::subscriber_email::validate_email_str;
use crate::store::credentials_user_id;
use crate::store::credentials_valid;
use crate::store::SubscriberStore;

verus! {

/// The JSON body of a publish request: the issue's title and both of
/// its renderings.
pub struct BodyData {
    pub title: String,
    pub content: Content,
}

/// Both renderings of a newsletter issue.
pub struct Content {
    pub html: String,
    pub text: String,
}

impl BodyData {
    /// Reassembles a publish body from the optional fields the JSON
    /// layer hands over: every field must be present, each is kept
    /// verbatim.
    pub fn from_parts(title: Option<String>, html: Option<String>, text: Option<String>) -> (r:
        Result<BodyData, String>)
        ensures
            match r {
                Ok(b) => {
                    &&& title matches Some(t) && b.title@ == t@
                    &&& html matches Some(h) && b.content.html@ == h@
                    &&& text matches Some(x) && b.content.text@ == x@
                },
                Err(_) => title is None || html is None || text is None,
            },
    {
        let title = match title {
            Some(t) => t,
            None => {
                return Err(String::from_str("missing field title"));
            },
        };
        let html = match html {
            Some(h) => h,
            None => {
                return Err(String::from_str("missing field content.html"));
            },
        };
        let text = match text {
            Some(x) => x,
            None => {
                return Err(String::from_str("missing field content.text"));
            },
        };
        Ok(BodyData { title, content: Content { html, text } })
    }
}

/// Everything the publish endpoint can fail with; each payload
/// describes the cause.
#[derive(Debug)]
pub enum PublishError {
    AuthError(String),
    UnexpectedError(String),
}

impl PublishError {
    /// The HTTP answer to a failed publish: 401 with the Basic
    /// challenge on an authentication failure, a bare 500 otherwise.
    pub fn error_response(&self) -> (r: (u16, Option<String>))
        ensures
            match self {
                PublishError::AuthError(_) => r.0 == 401 && (r.1 matches Some(h) && h@
                    == "Basic realm=\"publish\""@),
                PublishError::UnexpectedError(_) => r.0 == 500 && r.1 is None,
            },
    {
        match self {
            PublishError::AuthError(_) => (
                401,
                Some(String::from_str("Basic realm=\"publish\"")),
            ),
            PublishError::UnexpectedError(_) => (500, None),
        }
    }
}

/// What base64 decoding with the standard alphabet makes of a string;
/// it depends on the characters of the string alone.
pub uninterp spec fn base64_decoded(s: Seq<char>) -> Option<Seq<u8>>;

/// Relies on base64::decode_config with the STANDARD alphabet: whether
/// and into which bytes a string decodes is a function of the string
/// alone.
#[verifier::external_body]
fn base64_decode(s: &str) -> (r: Option<Vec<u8>>)
    ensures
        match r {
            Some(v) => base64_decoded(s@) == Some(v@),
            None => base64_decoded(s@) is None,
        },
{
    match base64::decode_config(s, base64::STANDARD) {
        Ok(v) => Some(v),
        Err(_) => None,
    }
}

/// What UTF-8 decoding makes of a byte string; it depends on the bytes
/// alone.
pub uninterp spec fn utf8_decoded(b: Seq<u8>) -> Option<Seq<char>>;

/// Relies on std's String::from_utf8: whether and into which characters
/// a byte string decodes is a function of the bytes alone.
#[verifier::external_body]
fn utf8_to_string(v: Vec<u8>) -> (r: Option<String>)
    ensures
        match r {
            Some(s) => utf8_decoded(v@) == Some(s@),
            None => utf8_decoded(v@) is None,
        },
{
    match String::from_utf8(v) {
        Ok(s) => Some(s),
        Err(_) => None,
    }
}

/// Splitting at the first colon: the part before it and the part after
/// it, or nothing when there is no colon at all.
pub open spec fn colon_split(text: Seq<char>) -> Option<(Seq<char>, Seq<char>)> {
    if exists|i: int| 0 <= i < text.len() && text[i] == ':' {
        let i = choose|i: int|
            0 <= i < text.len() && text[i] == ':' && forall|j: int| 0 <= j < i ==> text[j] != ':';
        Some((text.subrange(0, i), text.subrange(i + 1, text.len() as int)))
    } else {
        None
    }
}

/// The view of an optional header value.
pub open spec fn opt_str_view(h: Option<&str>) -> Option<Seq<char>> {
    match h {
        Some(s) => Some(s@),
        None => None,
    }
}

/// What a Basic-Auth header yields: the header must be present, carry
/// the `Basic ` scheme, decode as base64 into UTF-8 text, and that text
/// must hold a colon; username stands before the first colon, password
/// after it.
pub open spec fn basic_auth_credentials(header: Option<Seq<char>>) -> Option<
    (Seq<char>, Seq<char>),
> {
    match header {
        None => None,
        Some(h) => {
            if !(h.len() >= 6 && h.subrange(0, 6) == "Basic "@) {
                None
            } else {
                match base64_decoded(h.skip(6)) {
                    None => None,
                    Some(bytes) => match utf8_decoded(bytes) {
                        None => None,
                        Some(text) => colon_split(text),
                    },
                }
            }
        },
    }
}

/// Parses an `Authorization: Basic` header into credentials; fails when
/// the header is absent, not of the Basic scheme, not base64, not
/// UTF-8, or missing the password separator.
#[verifier::loop_isolation(false)]
pub fn basic_authentication(authorization: Option<&str>) -> (r: Result<Credentials, String>)
    ensures
        match r {
            Ok(c) => basic_auth_credentials(opt_str_view(authorization)) == Some(
                (c.username@, c.password@),
            ),
            Err(_) => basic_auth_credentials(opt_str_view(authorization)) is None,
        },
{
    let header = match authorization {
        Some(h) => h,
        None => {
            return Err(String::from_str("The authorization header is missing"));
        },
    };
    let hlen = header.unicode_len();
    if hlen < 6 {
        return Err(String::from_str("The authorization scheme is not Basic"));
    }
    let scheme = header.substring_char(0, 6);
    if !crate::str_eq(scheme, "Basic ") {
        return Err(String::from_str("The authorization scheme is not Basic"));
    }
    let encoded = header.substring_char(6, hlen);
    proof {
        assert(encoded@ =~= header@.skip(6));
    }
    let decoded_bytes = match base64_decode(encoded) {
        Some(v) => v,
        None => {
            return Err(String::from_str("The credential segment is not valid base64"));
        },
    };
    let decoded = match utf8_to_string(decoded_bytes) {
        Some(s) => s,
        None => {
            return Err(String::from_str("The decoded credentials are not valid UTF-8"));
        },
    };
    let text = decoded.as_str();
    let tlen = text.unicode_len();
    let mut i: usize = 0;
    while i < tlen
        invariant
            i <= tlen,
            tlen == text@.len(),
            forall|j: int| 0 <= j < i ==> text@[j] != ':',
        decreases tlen - i,
    {
        if text.get_char(i) == ':' {
            let username = String::from_str(text.substring_char(0, i));
            let password = String::from_str(text.substring_char(i + 1, tlen));
            proof {
                let t = text@;
                assert(exists|k: int|
                    0 <= k < t.len() && t[k] == ':' && forall|j: int| 0 <= j < k ==> t[j] != ':')
                    by {
                    assert((i as int) < t.len() && t[i as int] == ':' && forall|j: int|
                        0 <= j < i as int ==> t[j] != ':');
                }
                let k = choose|k: int|
                    0 <= k < t.len() && t[k] == ':' && forall|j: int| 0 <= j < k ==> t[j] != ':';
                if k < i as int {
                    assert(t[k] != ':');
                    assert(false);
                }
                if k > i as int {
                    assert(t[i as int] != ':');
                    assert(false);
                }
            }
            return Ok(Credentials { username, password });
        }
        i = i + 1;
    }
    Err(String::from_str("The password segment is missing"))
}

/// The authentication gate of the publish endpoint: header parsing and
/// credential validation in one step. Both kinds of rejection come back
/// as the same AuthError.
pub fn authorize_publish(store: &SubscriberStore, authorization: Option<&str>) -> (r: Result<
    u64,
    PublishError,
>)
    requires
        store.wf(),
    ensures
        match r {
            Ok(uid) => (basic_auth_credentials(opt_str_view(authorization)) matches Some(c)
                && credentials_valid(store@, c.0, c.1) && uid == credentials_user_id(
                store@,
                c.0,
                c.1,
            )),
            Err(PublishError::AuthError(_)) => match basic_auth_credentials(
                opt_str_view(authorization),
            ) {
                None => true,
                Some(c) => !credentials_valid(store@, c.0, c.1),
            },
            Err(PublishError::UnexpectedError(_)) => false,
        },
{
    let credentials = match basic_authentication(authorization) {
        Ok(c) => c,
        Err(m) => {
            return Err(PublishError::AuthError(m));
        },
    };
    match validate_credentials(credentials, store) {
        Ok(uid) => Ok(uid),
        Err(AuthError::InvalidCredentialsError(m)) => Err(PublishError::AuthError(m)),
        Err(AuthError::UnexpectedError(m)) => Err(PublishError::UnexpectedError(m)),
    }
}

/// The recipients one publish run sends to: of the stored rows, exactly
/// those whose stored email still parses, in their stored order.
pub open spec fn publish_plan(rows: Seq<Seq<char>>) -> Seq<Seq<char>>
    decreases rows.len(),
{
    if rows.len() == 0 {
        Seq::empty()
    } else {
        let rest = publish_plan(rows.drop_last());
        if email_valid(rows.last()) {
            rest.push(rows.last())
        } else {
            rest
        }
    }
}

/// Progress of a publish run: how many sends have happened and whether
/// a transport failure has ended the run.
pub struct PublishState {
    pub sent: nat,
    pub failed: bool,
}

/// How a publish run over `len` planned recipients has progressed after
/// the given send outcomes: sends happen in order, and the first
/// failure ends the run for good.
pub open spec fn run_publish(len: nat, outcomes: Seq<bool>) -> PublishState
    decreases outcomes.len(),
{
    if outcomes.len() == 0 {
        PublishState { sent: 0, failed: false }
    } else {
        let prev = run_publish(len, outcomes.drop_last());
        if prev.failed || prev.sent >= len {
            prev
        } else if outcomes.last() {
            PublishState { sent: prev.sent + 1, failed: false }
        } else {
            PublishState { sent: prev.sent, failed: true }
        }
    }
}

/// A run ends successfully when every planned recipient has been sent
/// to and no failure occurred.
pub open spec fn publish_succeeded(len: nat, outcomes: Seq<bool>) -> bool {
    run_publish(len, outcomes) == PublishState { sent: len, failed: false }
}

/// One publish in progress: the planned recipients, how far the sends
/// have come, and whether a transport failure has ended the run.
pub struct PublishRun {
    recipients: Vec<String>,
    next: usize,
    failed: bool,
    outcomes: Ghost<Seq<bool>>,
}

impl PublishRun {
    /// The planned recipients: the valid stored emails, in order.
    pub closed spec fn plan(&self) -> Seq<Seq<char>> {
        self.recipients@.map_values(|e: String| e@)
    }

    /// The send outcomes recorded so far.
    pub closed spec fn outcomes(&self) -> Seq<bool> {
        self.outcomes@
    }

    /// How many sends have succeeded.
    pub closed spec fn sent(&self) -> nat {
        self.next as nat
    }

    /// Whether a transport failure has ended the run.
    pub closed spec fn has_failed(&self) -> bool {
        self.failed
    }

    /// The run's progress matches its recorded outcomes, and every
    /// planned recipient carries a valid email.
    pub open spec fn wf(&self) -> bool {
        &&& run_publish(self.plan().len(), self.outcomes()) == PublishState {
            sent: self.sent(),
            failed: self.has_failed(),
        }
        &&& forall|i: int| 0 <= i < self.plan().len() ==> email_valid(#[trigger] self.plan()[i])
    }

    /// Plans a publish over the stored rows: every row whose stored
    /// email no longer parses is skipped, every row that parses is
    /// kept, and no row ends the planning early.
    #[verifier::loop_isolation(false)]
    pub fn new(rows: &Vec<String>) -> (r: PublishRun)
        ensures
            r.wf(),
            r.plan() == publish_plan(rows@.map_values(|e: String| e@)),
            r.sent() == 0,
            !r.has_failed(),
            r.outcomes() == Seq::<bool>::empty(),
    {
        let ghost all = rows@.map_values(|e: String| e@);
        let n = rows.len();
        let mut recipients: Vec<String> = Vec::new();
        let mut i: usize = 0;
        while i < n
            invariant
                i <= n,
                recipients@.map_values(|e: String| e@) =~= publish_plan(all.take(i as int)),
            decreases n - i,
        {
            proof {
                assert(all[i as int] == rows@[i as int]@);
                assert(all.take(i as int + 1).drop_last() =~= all.take(i as int));
                assert(all.take(i as int + 1).last() == all[i as int]);
            }
            if validate_email_str(rows[i].as_str()) {
                recipients.push(rows[i].clone());
            }
            proof {
                assert(recipients@.map_values(|e: String| e@) =~= publish_plan(
                    all.take(i as int + 1),
                ));
            }
            i = i + 1;
        }
        proof {
            assert(all.take(n as int) =~= all);
            lemma_publish_plan_valid(all);
        }
        PublishRun { recipients, next: 0, failed: false, outcomes: Ghost(Seq::empty()) }
    }

    /// The next address to send to: the first planned recipient not yet
    /// attempted, or nothing when the run has failed or every recipient
    /// has been attempted.
    pub fn next_recipient(&self) -> (r: Option<String>)
        requires
            self.wf(),
        ensures
            match r {
                Some(e) => !self.has_failed() && self.sent() < self.plan().len() && e@
                    == self.plan()[self.sent() as int] && email_valid(e@),
                None => self.has_failed() || self.sent() == self.plan().len(),
            },
    {
        if self.failed || self.next >= self.recipients.len() {
            proof {
                if !self.failed {
                    lemma_run_publish_bounded(self.plan().len(), self.outcomes());
                }
            }
            None
        } else {
            Some(self.recipients[self.next].clone())
        }
    }

    /// Records one successful send.
    pub fn record_sent(&mut self)
        requires
            old(self).wf(),
            !old(self).has_failed(),
            old(self).sent() < old(self).plan().len(),
        ensures
            final(self).wf(),
            final(self).plan() == old(self).plan(),
            final(self).sent() == old(self).sent() + 1,
            !final(self).has_failed(),
            final(self).outcomes() == old(self).outcomes().push(true),
    {
        proof {
            lemma_run_publish_bounded(self.plan().len(), self.outcomes());
            assert(self.outcomes().push(true).drop_last() =~= self.outcomes());
            assert(self.plan().len() == self.recipients@.len());
        }
        let n = self.recipients.len();
        assert(self.next < n);
        self.next = self.next + 1;
        proof {
            self.outcomes@ = self.outcomes@.push(true);
        }
    }

    /// Records the transport failure that ends the run: no further
    /// recipient is attempted.
    pub fn record_failed(&mut self)
        requires
            old(self).wf(),
            !old(self).has_failed(),
            old(self).sent() < old(self).plan().len(),
        ensures
            final(self).wf(),
            final(self).plan() == old(self).plan(),
            final(self).sent() == old(self).sent(),
            final(self).has_failed(),
            final(self).outcomes() == old(self).outcomes().push(false),
    {
        proof {
            assert(self.outcomes().push(false).drop_last() =~= self.outcomes());
        }
        self.failed = true;
        proof {
            self.outcomes@ = self.outcomes@.push(false);
        }
    }

    /// The answer of the publish endpoint once no send remains: success
    /// exactly when every planned recipient was attempted and none
    /// failed.
    pub fn outcome(&self) -> (r: Result<(), PublishError>)
        requires
            self.wf(),
            self.has_failed() || self.sent() == self.plan().len(),
        ensures
            match r {
                Ok(()) => !self.has_failed() && self.sent() == self.plan().len()
                    && publish_succeeded(self.plan().len(), self.outcomes()),
                Err(e) => self.has_failed() && (e matches PublishError::UnexpectedError(_)),
            },
    {
        if self.failed {
            Err(PublishError::UnexpectedError(String::from_str("a newsletter send failed")))
        } else {
            Ok(())
        }
    }
}

/// Plans a publish straight from the store: the run's recipients are
/// exactly the stored confirmed rows whose email still parses, in
/// their stored order.
pub fn start_publish(store: &SubscriberStore) -> (r: PublishRun)
    ensures
        r.wf(),
        r.plan() == publish_plan(crate::store::confirmed_email_list(store@.subscribers)),
        r.sent() == 0,
        !r.has_failed(),
{
    let rows = store.confirmed_emails();
    PublishRun::new(&rows)
}

/// A run never counts more sends than it has planned recipients.
proof fn lemma_run_publish_bounded(len: nat, outcomes: Seq<bool>)
    ensures
        run_publish(len, outcomes).sent <= len,
    decreases outcomes.len(),
{
    if outcomes.len() > 0 {
        lemma_run_publish_bounded(len, outcomes.drop_last());
    }
}

/// Skipping is harmless: a stored row whose email does not parse can be
/// dropped without changing which recipients a publish sends to -- the
/// run continues past it instead of ending there.
pub proof fn lemma_publish_skips_invalid(rows: Seq<Seq<char>>, i: int)
    requires
        0 <= i < rows.len(),
    ensures
        !email_valid(rows[i]) ==> publish_plan(rows) == publish_plan(rows.remove(i)),
    decreases rows.len(),
{
    if !email_valid(rows[i]) {
        if i == rows.len() - 1 {
            assert(rows.remove(i) =~= rows.drop_last());
        } else {
            assert(rows.remove(i).drop_last() =~= rows.drop_last().remove(i));
            assert(rows.remove(i).last() == rows.last());
            lemma_publish_skips_invalid(rows.drop_last(), i);
        }
    }
}

/// Every planned recipient is valid, and every valid stored row is
/// planned: the plan is exactly the valid rows in their stored order.
pub proof fn lemma_publish_plan_valid(rows: Seq<Seq<char>>)
    ensures
        forall|i: int| 0 <= i < publish_plan(rows).len() ==> email_valid(
            #[trigger] publish_plan(rows)[i],
        ),
        publish_plan(rows).len() <= rows.len(),
        forall|i: int|
            0 <= i < rows.len() && email_valid(#[trigger] rows[i]) ==> publish_plan(
                rows,
            ).contains(rows[i]),
    decreases rows.len(),
{
    if rows.len() > 0 {
        lemma_publish_plan_valid(rows.drop_last());
        let plan = publish_plan(rows);
        let prev = publish_plan(rows.drop_last());
        assert forall|i: int|
            0 <= i < rows.len() && email_valid(#[trigger] rows[i]) implies plan.contains(
            rows[i],
        ) by {
            if i == rows.len() - 1 {
                assert(plan[plan.len() - 1] == rows[i]);
            } else {
                assert(rows.drop_last()[i] == rows[i]);
                assert(prev.contains(rows[i]));
                let w = choose|w: int| 0 <= w < prev.len() && prev[w] == rows[i];
                assert(plan[w] == rows[i]);
            }
        }
    }
}

/// Success is owed: when every send succeeds, a publish run ends
/// successfully with every planned recipient attempted.
pub proof fn lemma_publish_success_when_all_sent(len: nat, outcomes: Seq<bool>)
    requires
        outcomes.len() <= len,
        forall|i: int| 0 <= i < outcomes.len() ==> #[trigger] outcomes[i],
    ensures
        run_publish(len, outcomes) == (PublishState { sent: outcomes.len(), failed: false }),
        outcomes.len() == len ==> publish_succeeded(len, outcomes),
    decreases outcomes.len(),
{
    if outcomes.len() > 0 {
        assert(forall|i: int|
            0 <= i < outcomes.drop_last().len() ==> #[trigger] outcomes.drop_last()[i]);
        lemma_publish_success_when_all_sent(len, outcomes.drop_last());
    }
}

} // verus!
