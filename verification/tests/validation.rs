use fake::faker::internet::en::SafeEmail;
use fake::Fake;
use zero2prod::domain::SubscriberEmail;
use zero2prod::domain::SubscriberName;

#[test]
fn a_257_grapheme_is_rejected() {
    let name = "a".repeat(257);
    assert!(SubscriberName::parse(name).is_err());
}

#[test]
fn a_256_grapheme_is_accected() {
    let name = "a".repeat(256);
    assert!(SubscriberName::parse(name).is_ok());
}

#[test]
fn whitespace_only_is_rejected() {
    let name = " ".to_string();
    assert!(SubscriberName::parse(name).is_err());
}

#[test]
fn subscriber_name_emptystring_is_rejected() {
    let name = "".to_string();
    assert!(SubscriberName::parse(name).is_err());
}

#[test]
fn invalid_chars_rejected() {
    for name in &['/', '(', ')', '"', '<', '>', '\\', '{', '}'] {
        let name = name.to_string();
        assert!(SubscriberName::parse(name).is_err());
    }
}

#[test]
fn valid_name_is_ok() {
    let name = "Gianni Pinotto".to_string();
    assert!(SubscriberName::parse(name).is_ok());
}

#[test]
fn valid_email_is_ok() {
    let email: String = SafeEmail().fake();
    assert!(SubscriberEmail::parse(email).is_ok());
}

#[test]
fn subscriber_email_emptystring_is_rejected() {
    let email = "".to_string();
    assert!(SubscriberEmail::parse(email).is_err());
}

#[test]
fn email_missing_at_is_rejected() {
    let email = "ginopilotino.com".to_string();
    assert!(SubscriberEmail::parse(email).is_err());
}

#[test]
fn email_missing_subject_is_rejected() {
    let email = "@ginopilotino.com".to_string();
    assert!(SubscriberEmail::parse(email).is_err());
}

#[test]
fn name_error_message_names_the_input() {
    let message = SubscriberName::parse("{}".to_string()).unwrap_err();
    assert_eq!(message, "{} is not a valid subscriber name");
}

#[test]
fn email_error_message_names_the_input() {
    let message = SubscriberEmail::parse("nope".to_string()).unwrap_err();
    assert_eq!(message, "nope is not a valid email address");
}

#[test]
fn accepted_values_are_kept_verbatim() {
    let name = SubscriberName::parse("le guin".to_string()).unwrap();
    assert_eq!(name.as_ref(), "le guin");
    let email = SubscriberEmail::parse("ursula_le_guin@gmail.com".to_string()).unwrap();
    assert_eq!(email.as_ref(), "ursula_le_guin@gmail.com");
}
