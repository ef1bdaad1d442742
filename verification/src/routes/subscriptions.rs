use rand::Rng;
use vstd::prelude::*;
use vstd::string::StringExecFns;

use crate::domain::subscriber_email::email_valid;
use crate::domain::subscriber_name::name_valid;
use crate::domain::NewSubscriber;
use crate::domain::SubscriberEmail;
use crate::domain::SubscriberName;
use crate::store::create_effect;
use crate::store::confirm_effect;
use crate::store::has_token;
use crate::store::StoreError;
use crate::store::SubscriberStore;

verus! {

/// A storage failure while the subscription token was being written;
/// the payload describes the cause.
#[derive(Debug)]
pub struct StoreTokenError(pub String);

/// Everything that can go wrong while handling a subscription request,
/// one variant per stage; each payload describes the cause.
#[derive(Debug)]
pub enum SubscribeError {
    ValidationError(String),
    PoolError(String),
    InsertSubscriberError(String),
    TransactionCommitError(String),
    StoreTokenError(StoreTokenError),
    SendEmailError(String),
}

impl SubscribeError {
    /// The HTTP status the subscription endpoint answers with: bad
    /// input is the caller's fault, every other stage failure is the
    /// server's.
    pub fn status_code(&self) -> (r: u16)
        ensures
            r == (if self matches SubscribeError::ValidationError(_) {
                400u16
            } else {
                500u16
            }),
    {
        match self {
            SubscribeError::ValidationError(_) => 400,
            SubscribeError::PoolError(_) => 500,
            SubscribeError::InsertSubscriberError(_) => 500,
            SubscribeError::TransactionCommitError(_) => 500,
            SubscribeError::StoreTokenError(_) => 500,
            SubscribeError::SendEmailError(_) => 500,
        }
    }
}

/// The raw form fields a subscription request carries.
pub struct FormData {
    pub email: String,
    pub name: String,
}

/// Validates the two form fields, name first, and keeps both verbatim
/// on success; a failure carries the message of the first validator
/// that rejected, so an invalid name's message wins over the email's.
pub fn parse_subscriber(form: FormData) -> (r: Result<NewSubscriber, String>)
    ensures
        match r {
            Ok(ns) => name_valid(form.name@) && email_valid(form.email@) && ns.name@
                == form.name@ && ns.email@ == form.email@,
            Err(m) => {
                &&& !(name_valid(form.name@) && email_valid(form.email@))
                &&& !name_valid(form.name@) ==> m@ == form.name@
                    + " is not a valid subscriber name"@
                &&& name_valid(form.name@) ==> m@ == form.email@
                    + " is not a valid email address"@
            },
        },
{
    let name = match SubscriberName::parse(form.name) {
        Ok(n) => n,
        Err(m) => {
            return Err(m);
        },
    };
    let email = match SubscriberEmail::parse(form.email) {
        Ok(e) => e,
        Err(m) => {
            return Err(m);
        },
    };
    Ok(NewSubscriber { name, email })
}

/// A character a subscription token may be made of: ASCII alphanumeric.
pub open spec fn is_token_char(c: char) -> bool {
    let u = c as u32;
    (48 <= u && u <= 57) || (65 <= u && u <= 90) || (97 <= u && u <= 122)
}

/// A well-formed subscription token: exactly 25 alphanumeric characters.
pub open spec fn token_wf(s: Seq<char>) -> bool {
    s.len() == 25 && forall|i: int| 0 <= i < s.len() ==> is_token_char(#[trigger] s[i])
}

/// Relies on rand's Alphanumeric distribution: every sample is one of
/// the 62 ASCII alphanumeric characters. Which one comes back is left
/// open: it is random.
#[verifier::external_body]
fn sample_alphanumeric() -> (c: char)
    ensures
        is_token_char(c),
{
    char::from(rand::thread_rng().sample(rand::distributions::Alphanumeric))
}

/// Relies on std's String::push: it appends exactly the one character.
#[verifier::external_body]
fn push_char(s: &mut String, c: char)
    ensures
        final(s)@ == old(s)@.push(c),
{
    s.push(c);
}

/// Draws a fresh 25-character alphanumeric token. Unpredictable, not
/// checked for uniqueness against tokens already on file.
pub fn generate_subscription_token() -> (r: String)
    ensures
        token_wf(r@),
{
    let mut s = String::new();
    let mut i: usize = 0;
    while i < 25
        invariant
            i <= 25,
            s@.len() == i,
            forall|j: int| 0 <= j < s@.len() ==> is_token_char(#[trigger] s@[j]),
        decreases 25 - i,
    {
        let c = sample_alphanumeric();
        push_char(&mut s, c);
        i = i + 1;
    }
    s
}

/// The public URL that confirms a subscription, embedding its token as
/// the single query parameter.
pub open spec fn confirmation_link(base_url: Seq<char>, token: Seq<char>) -> Seq<char> {
    base_url + "/subscriptions/confirm?subscription_token="@ + token
}

/// Builds the confirmation URL for a token.
pub fn build_confirmation_link(base_url: &str, token: &str) -> (r: String)
    ensures
        r@ == confirmation_link(base_url@, token@),
{
    let mut s = String::from_str(base_url);
    s.append("/subscriptions/confirm?subscription_token=");
    s.append(token);
    s
}

/// The HTML body of the confirmation email, around its link.
pub open spec fn welcome_html_body(link: Seq<char>) -> Seq<char> {
    "Welcome! Click <a href=\""@ + link + "\" here </a>"@
}

/// The plain-text body of the confirmation email, around its link.
pub open spec fn welcome_text_body(link: Seq<char>) -> Seq<char> {
    "Welcome! Click "@ + link + " here"@
}

/// The confirmation email for a new subscriber: recipient, fixed
/// subject, and both bodies carrying the confirmation link.
#[derive(Debug)]
pub struct ConfirmationEmail {
    pub to: String,
    pub subject: String,
    pub html_body: String,
    pub text_body: String,
}

/// Builds the confirmation email for a new subscriber; the caller hands
/// it to the transport.
pub fn confirmation_email(email: &SubscriberEmail, base_url: &str, subscription_token: &str) -> (r:
    ConfirmationEmail)
    ensures
        r.to@ == email@,
        r.subject@ == "Welcome!"@,
        r.html_body@ == welcome_html_body(confirmation_link(base_url@, subscription_token@)),
        r.text_body@ == welcome_text_body(confirmation_link(base_url@, subscription_token@)),
{
    let link = build_confirmation_link(base_url, subscription_token);
    let mut html_body = String::from_str("Welcome! Click <a href=\"");
    html_body.append(link.as_str());
    html_body.append("\" here </a>");
    let mut text_body = String::from_str("Welcome! Click ");
    text_body.append(link.as_str());
    text_body.append(" here");
    ConfirmationEmail {
        to: String::from_str(email.as_ref()),
        subject: String::from_str("Welcome!"),
        html_body,
        text_body,
    }
}

/// What a successful subscription request leaves behind for its caller:
/// the new row's identifier, the token that was stored with it, and the
/// confirmation email that still has to be sent.
#[derive(Debug)]
pub struct SubscriptionReceipt {
    pub subscriber_id: u64,
    pub token: String,
    pub email: ConfirmationEmail,
}

/// The subscription workflow on a token the caller fixes: validate both
/// fields, then store subscriber and token atomically, then build the
/// confirmation email. Nothing is stored on a validation failure, and
/// nothing on a storage failure either.
pub fn subscribe_with_token(
    store: &mut SubscriberStore,
    form: FormData,
    base_url: &str,
    token: String,
    subscribed_at: u64,
) -> (r: Result<SubscriptionReceipt, SubscribeError>)
    requires
        old(store).wf(),
    ensures
        final(store).wf(),
        match r {
            Ok(receipt) => {
                &&& name_valid(form.name@) && email_valid(form.email@)
                &&& old(store)@.next_id < u64::MAX
                &&& !has_token(old(store)@, token@)
                &&& final(store)@ == create_effect(
                    old(store)@,
                    form.name@,
                    form.email@,
                    token@,
                    subscribed_at,
                )
                &&& receipt.subscriber_id == old(store)@.next_id
                &&& receipt.token@ == token@
                &&& receipt.email.to@ == form.email@
                &&& receipt.email.subject@ == "Welcome!"@
                &&& receipt.email.html_body@ == welcome_html_body(
                    confirmation_link(base_url@, token@),
                )
                &&& receipt.email.text_body@ == welcome_text_body(
                    confirmation_link(base_url@, token@),
                )
            },
            Err(e) => final(store)@ == old(store)@ && match e {
                SubscribeError::ValidationError(m) => {
                    &&& !(name_valid(form.name@) && email_valid(form.email@))
                    &&& !name_valid(form.name@) ==> m@ == form.name@
                        + " is not a valid subscriber name"@
                    &&& name_valid(form.name@) ==> m@ == form.email@
                        + " is not a valid email address"@
                },
                SubscribeError::InsertSubscriberError(_) => name_valid(form.name@) && email_valid(
                    form.email@,
                ) && old(store)@.next_id == u64::MAX,
                SubscribeError::StoreTokenError(_) => name_valid(form.name@) && email_valid(
                    form.email@,
                ) && old(store)@.next_id < u64::MAX && has_token(old(store)@, token@),
                _ => false,
            },
        },
{
    let new_subscriber = match parse_subscriber(form) {
        Ok(ns) => ns,
        Err(m) => {
            return Err(SubscribeError::ValidationError(m));
        },
    };
    let subscriber_id = match store.create_subscriber(
        &new_subscriber.name,
        &new_subscriber.email,
        &token,
        subscribed_at,
    ) {
        Ok(id) => id,
        Err(StoreError::IdsExhausted) => {
            return Err(
                SubscribeError::InsertSubscriberError(
                    String::from_str("no fresh subscriber identifier was left"),
                ),
            );
        },
        Err(StoreError::DuplicateToken) => {
            return Err(
                SubscribeError::StoreTokenError(
                    StoreTokenError(String::from_str("the subscription token is already on file")),
                ),
            );
        },
    };
    let email = confirmation_email(&new_subscriber.email, base_url, token.as_str());
    Ok(SubscriptionReceipt { subscriber_id, token, email })
}

/// The subscription workflow as the endpoint runs it: like
/// `subscribe_with_token`, on a token drawn fresh at random. Whether
/// the drawn token collides with one on file is decided by chance, so a
/// storage failure cannot be ruled out here; nothing is stored then.
/// But a collision needs a stored token to collide with: on a store
/// without tokens, valid input is owed success.
pub fn subscribe(
    store: &mut SubscriberStore,
    form: FormData,
    base_url: &str,
    subscribed_at: u64,
) -> (r: Result<SubscriptionReceipt, SubscribeError>)
    requires
        old(store).wf(),
    ensures
        final(store).wf(),
        match r {
            Ok(receipt) => {
                &&& name_valid(form.name@) && email_valid(form.email@)
                &&& token_wf(receipt.token@)
                &&& old(store)@.next_id < u64::MAX
                &&& !has_token(old(store)@, receipt.token@)
                &&& final(store)@ == create_effect(
                    old(store)@,
                    form.name@,
                    form.email@,
                    receipt.token@,
                    subscribed_at,
                )
                &&& receipt.subscriber_id == old(store)@.next_id
                &&& receipt.email.to@ == form.email@
                &&& receipt.email.subject@ == "Welcome!"@
                &&& receipt.email.html_body@ == welcome_html_body(
                    confirmation_link(base_url@, receipt.token@),
                )
                &&& receipt.email.text_body@ == welcome_text_body(
                    confirmation_link(base_url@, receipt.token@),
                )
            },
            Err(e) => final(store)@ == old(store)@ && match e {
                SubscribeError::ValidationError(m) => {
                    &&& !(name_valid(form.name@) && email_valid(form.email@))
                    &&& !name_valid(form.name@) ==> m@ == form.name@
                        + " is not a valid subscriber name"@
                    &&& name_valid(form.name@) ==> m@ == form.email@
                        + " is not a valid email address"@
                },
                SubscribeError::InsertSubscriberError(_) => name_valid(form.name@) && email_valid(
                    form.email@,
                ) && old(store)@.next_id == u64::MAX,
                SubscribeError::StoreTokenError(_) => name_valid(form.name@) && email_valid(
                    form.email@,
                ) && old(store)@.next_id < u64::MAX && old(store)@.tokens.len() > 0,
                _ => false,
            },
        },
{
    let token = generate_subscription_token();
    subscribe_with_token(store, form, base_url, token, subscribed_at)
}

/// Handles a confirmation request: when the token is on file the
/// subscriber it was issued for becomes confirmed and the endpoint
/// answers 200; an unrecognized token changes nothing and answers 404.
pub fn confirm_subscription(store: &mut SubscriberStore, token: &str) -> (status: u16)
    requires
        old(store).wf(),
    ensures
        final(store).wf(),
        final(store)@ == confirm_effect(old(store)@, token@),
        status == (if has_token(old(store)@, token@) {
            200u16
        } else {
            404u16
        }),
{
    if store.confirm(token) {
        200
    } else {
        404
    }
}

} // verus!
