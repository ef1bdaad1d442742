use zero2prod::routes::subscriptions::generate_subscription_token;
use zero2prod::routes::subscriptions::subscribe;
use zero2prod::routes::subscriptions::subscribe_with_token;
use zero2prod::routes::subscriptions::confirm_subscription;
use zero2prod::routes::subscriptions::FormData;
use zero2prod::routes::subscriptions::SubscribeError;
use zero2prod::store::SubscriberStore;

fn valid_form() -> FormData {
    FormData {
        email: "ursula_le_guin@gmail.com".to_string(),
        name: "le guin".to_string(),
    }
}

#[test]
fn subscribe_stores_one_pending_subscriber_with_one_token() {
    let mut store = SubscriberStore::new();
    let receipt = subscribe(&mut store, valid_form(), "https://example.com", 7).unwrap();
    assert_eq!(store.subscriber_count(), 1);
    let record = store.get_subscriber(receipt.subscriber_id).unwrap();
    assert_eq!(record.email, "ursula_le_guin@gmail.com");
    assert_eq!(record.name, "le guin");
    assert_eq!(record.subscribed_at, 7);
    assert!(!record.confirmed);
}

#[test]
fn subscribe_builds_the_confirmation_email_around_one_link() {
    let mut store = SubscriberStore::new();
    let token = "aaaaaaaaaaaaaaaaaaaaaaaaa".to_string();
    let receipt = subscribe_with_token(
        &mut store,
        valid_form(),
        "https://example.com",
        token,
        0,
    )
    .unwrap();
    let link = "https://example.com/subscriptions/confirm?subscription_token=aaaaaaaaaaaaaaaaaaaaaaaaa";
    assert_eq!(receipt.email.to, "ursula_le_guin@gmail.com");
    assert_eq!(receipt.email.subject, "Welcome!");
    assert_eq!(
        receipt.email.html_body,
        format!("Welcome! Click <a href=\"{}\" here </a>", link)
    );
    assert_eq!(receipt.email.text_body, format!("Welcome! Click {} here", link));
}

#[test]
fn subscription_token_resolves_to_its_subscriber() {
    let mut store = SubscriberStore::new();
    let receipt = subscribe(&mut store, valid_form(), "https://example.com", 0).unwrap();
    assert!(!store.get_subscriber(receipt.subscriber_id).unwrap().confirmed);
    let status = confirm_subscription(&mut store, receipt.token.as_str());
    assert_eq!(status, 200);
    assert!(store.get_subscriber(receipt.subscriber_id).unwrap().confirmed);
}

#[test]
fn confirming_twice_stays_confirmed_and_does_not_error() {
    let mut store = SubscriberStore::new();
    let receipt = subscribe(&mut store, valid_form(), "https://example.com", 0).unwrap();
    assert_eq!(confirm_subscription(&mut store, receipt.token.as_str()), 200);
    assert_eq!(confirm_subscription(&mut store, receipt.token.as_str()), 200);
    assert!(store.get_subscriber(receipt.subscriber_id).unwrap().confirmed);
}

#[test]
fn unknown_token_answers_404_and_changes_nothing() {
    let mut store = SubscriberStore::new();
    let receipt = subscribe(&mut store, valid_form(), "https://example.com", 0).unwrap();
    let status = confirm_subscription(&mut store, "bbbbbbbbbbbbbbbbbbbbbbbbb");
    assert_eq!(status, 404);
    assert!(!store.get_subscriber(receipt.subscriber_id).unwrap().confirmed);
}

#[test]
fn empty_name_is_rejected_with_400_and_no_row() {
    let mut store = SubscriberStore::new();
    let form = FormData {
        email: "ursula_le_guin@gmail.com".to_string(),
        name: "".to_string(),
    };
    let error = subscribe(&mut store, form, "https://example.com", 0).unwrap_err();
    assert!(matches!(error, SubscribeError::ValidationError(_)));
    assert_eq!(error.status_code(), 400);
    assert_eq!(store.subscriber_count(), 0);
}

#[test]
fn invalid_email_is_rejected_with_400_and_no_row() {
    let mut store = SubscriberStore::new();
    let form = FormData {
        email: "definitely-not-an-email".to_string(),
        name: "Ursula".to_string(),
    };
    let error = subscribe(&mut store, form, "https://example.com", 0).unwrap_err();
    assert!(matches!(error, SubscribeError::ValidationError(_)));
    assert_eq!(error.status_code(), 400);
    assert_eq!(store.subscriber_count(), 0);
}

#[test]
fn a_duplicate_token_aborts_the_whole_write() {
    let mut store = SubscriberStore::new();
    let token = "ccccccccccccccccccccccccc".to_string();
    subscribe_with_token(&mut store, valid_form(), "https://example.com", token.clone(), 0)
        .unwrap();
    let form = FormData {
        email: "gino@pilotino.com".to_string(),
        name: "Gino".to_string(),
    };
    let error =
        subscribe_with_token(&mut store, form, "https://example.com", token, 0).unwrap_err();
    assert!(matches!(error, SubscribeError::StoreTokenError(_)));
    assert_eq!(error.status_code(), 500);
    assert_eq!(store.subscriber_count(), 1);
}

#[test]
fn confirming_another_token_never_regresses_an_earlier_confirmation() {
    let mut store = SubscriberStore::new();
    let first = subscribe(&mut store, valid_form(), "https://example.com", 0).unwrap();
    let form = FormData { email: "gino@pilotino.com".to_string(), name: "Gino".to_string() };
    let second = subscribe(&mut store, form, "https://example.com", 0).unwrap();
    assert_eq!(confirm_subscription(&mut store, first.token.as_str()), 200);
    assert_eq!(confirm_subscription(&mut store, second.token.as_str()), 200);
    assert_eq!(confirm_subscription(&mut store, "zzzzzzzzzzzzzzzzzzzzzzzzz"), 404);
    assert!(store.get_subscriber(first.subscriber_id).unwrap().confirmed);
    assert!(store.get_subscriber(second.subscriber_id).unwrap().confirmed);
}

#[test]
fn the_same_email_may_subscribe_twice_as_two_independent_rows() {
    let mut store = SubscriberStore::new();
    let first = subscribe(&mut store, valid_form(), "https://example.com", 0).unwrap();
    let second = subscribe(&mut store, valid_form(), "https://example.com", 1).unwrap();
    assert_ne!(first.subscriber_id, second.subscriber_id);
    assert_eq!(store.subscriber_count(), 2);
}

#[test]
fn generated_tokens_are_25_alphanumeric_characters() {
    let token = generate_subscription_token();
    assert_eq!(token.chars().count(), 25);
    assert!(token.chars().all(|c| c.is_ascii_alphanumeric()));
}
