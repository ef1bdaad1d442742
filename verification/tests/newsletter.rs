use zero2prod::routes::newsletter::authorize_publish;
use zero2prod::routes::newsletter::basic_authentication;
use zero2prod::routes::newsletter::BodyData;
use zero2prod::routes::newsletter::PublishRun;
use zero2prod::routes::subscriptions::confirm_subscription;
use zero2prod::routes::subscriptions::subscribe;
use zero2prod::routes::subscriptions::FormData;
use zero2prod::store::SubscriberStore;

fn confirmed_subscriber(store: &mut SubscriberStore, email: &str, name: &str) {
    let form = FormData { email: email.to_string(), name: name.to_string() };
    let receipt = subscribe(store, form, "https://example.com", 0).unwrap();
    assert_eq!(confirm_subscription(store, receipt.token.as_str()), 200);
}

#[test]
fn basic_auth_round_trips_username_and_password() {
    let header = format!("Basic {}", base64::encode("gino:pilotino"));
    let credentials = basic_authentication(Some(header.as_str())).unwrap();
    assert_eq!(credentials.username, "gino");
    assert_eq!(credentials.password, "pilotino");
}

#[test]
fn basic_auth_splits_at_the_first_colon_only() {
    let header = format!("Basic {}", base64::encode("gino:pilo:tino"));
    let credentials = basic_authentication(Some(header.as_str())).unwrap();
    assert_eq!(credentials.username, "gino");
    assert_eq!(credentials.password, "pilo:tino");
}

#[test]
fn basic_auth_rejects_a_missing_header() {
    assert!(basic_authentication(None).is_err());
}

#[test]
fn basic_auth_rejects_other_schemes() {
    assert!(basic_authentication(Some("Bearer abcdef")).is_err());
}

#[test]
fn basic_auth_rejects_invalid_base64() {
    assert!(basic_authentication(Some("Basic !!!not-base64!!!")).is_err());
}

#[test]
fn basic_auth_rejects_a_missing_password_segment() {
    let header = format!("Basic {}", base64::encode("gino"));
    assert!(basic_authentication(Some(header.as_str())).is_err());
}

#[test]
fn missing_authorization_answers_401_with_the_basic_challenge() {
    let store = SubscriberStore::new();
    let error = authorize_publish(&store, None).unwrap_err();
    let (status, challenge) = error.error_response();
    assert_eq!(status, 401);
    assert_eq!(challenge.unwrap(), "Basic realm=\"publish\"");
}

#[test]
fn wrong_credentials_answer_401() {
    let mut store = SubscriberStore::new();
    assert!(store.add_user(1, "gino".to_string(), "pilotino".to_string()));
    let header = format!("Basic {}", base64::encode("gino:wrong"));
    let error = authorize_publish(&store, Some(header.as_str())).unwrap_err();
    assert_eq!(error.error_response().0, 401);
}

#[test]
fn correct_credentials_authorize_the_publish() {
    let mut store = SubscriberStore::new();
    assert!(store.add_user(9, "gino".to_string(), "pilotino".to_string()));
    let header = format!("Basic {}", base64::encode("gino:pilotino"));
    assert_eq!(authorize_publish(&store, Some(header.as_str())).unwrap(), 9);
}

#[test]
fn a_body_missing_its_title_is_rejected() {
    let body = BodyData::from_parts(
        None,
        Some("<p>news html text</p>".to_string()),
        Some("news plain text".to_string()),
    );
    assert!(body.is_err());
}

#[test]
fn a_body_missing_its_content_is_rejected() {
    let body = BodyData::from_parts(Some("News".to_string()), None, None);
    assert!(body.is_err());
}

#[test]
fn a_complete_body_is_kept_verbatim() {
    let body = BodyData::from_parts(
        Some("Newsletter title".to_string()),
        Some("<p>news html text</p>".to_string()),
        Some("news plain text".to_string()),
    )
    .unwrap();
    assert_eq!(body.title, "Newsletter title");
    assert_eq!(body.content.html, "<p>news html text</p>");
    assert_eq!(body.content.text, "news plain text");
}

#[test]
fn publish_skips_a_corrupted_row_and_still_succeeds() {
    let rows = vec![
        "definitely-not-an-email".to_string(),
        "ursula_le_guin@gmail.com".to_string(),
    ];
    let mut run = PublishRun::new(&rows);
    let first = run.next_recipient().unwrap();
    assert_eq!(first, "ursula_le_guin@gmail.com");
    run.record_sent();
    assert!(run.next_recipient().is_none());
    assert!(run.outcome().is_ok());
}

#[test]
fn publish_succeeds_once_every_confirmed_subscriber_was_sent_to() {
    let mut store = SubscriberStore::new();
    confirmed_subscriber(&mut store, "ursula_le_guin@gmail.com", "le guin");
    confirmed_subscriber(&mut store, "gino@pilotino.com", "Gino");
    let rows = store.confirmed_emails();
    assert_eq!(rows.len(), 2);
    let mut run = PublishRun::new(&rows);
    let mut sent: Vec<String> = Vec::new();
    while let Some(recipient) = run.next_recipient() {
        sent.push(recipient);
        run.record_sent();
    }
    assert_eq!(sent, vec!["ursula_le_guin@gmail.com", "gino@pilotino.com"]);
    assert!(run.outcome().is_ok());
}

#[test]
fn pending_subscribers_receive_no_newsletter() {
    let mut store = SubscriberStore::new();
    let form = FormData {
        email: "ursula_le_guin@gmail.com".to_string(),
        name: "le guin".to_string(),
    };
    subscribe(&mut store, form, "https://example.com", 0).unwrap();
    let rows = store.confirmed_emails();
    assert!(rows.is_empty());
    let mut run = PublishRun::new(&rows);
    assert!(run.next_recipient().is_none());
    assert!(run.outcome().is_ok());
}

#[test]
fn the_first_transport_failure_ends_the_run() {
    let rows = vec![
        "ursula_le_guin@gmail.com".to_string(),
        "gino@pilotino.com".to_string(),
    ];
    let mut run = PublishRun::new(&rows);
    let first = run.next_recipient().unwrap();
    assert_eq!(first, "ursula_le_guin@gmail.com");
    run.record_failed();
    assert!(run.next_recipient().is_none());
    let error = run.outcome().unwrap_err();
    assert_eq!(error.error_response().0, 500);
}
