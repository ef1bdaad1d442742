use zero2prod::configuration::EmailClientSettings;
use zero2prod::configuration::Environment;
use zero2prod::email_client::send_url;
use zero2prod::email_client::SendEmailRequest;

fn settings(sender_email: &str) -> EmailClientSettings {
    EmailClientSettings {
        base_url: "https://mail.example.com".to_string(),
        sender_email: sender_email.to_string(),
        authorization_token: "server-token".to_string(),
        timeout_milliseconds: 10_000,
    }
}

#[test]
fn a_valid_sender_address_is_accepted() {
    let settings = settings("newsletter@example.com");
    let sender = settings.sender().unwrap();
    assert_eq!(sender.as_ref(), "newsletter@example.com");
}

#[test]
fn an_invalid_sender_address_is_rejected() {
    let settings = settings("not-an-address");
    assert!(settings.sender().is_err());
}

#[test]
fn the_timeout_comes_from_the_configured_milliseconds() {
    let settings = settings("newsletter@example.com");
    assert_eq!(settings.timeout(), std::time::Duration::from_millis(10_000));
}

#[test]
fn environment_names_are_canonical() {
    assert_eq!(Environment::Local.as_str(), "local");
    assert_eq!(Environment::Production.as_str(), "production");
}

#[test]
fn the_send_url_stands_under_the_transport_base() {
    assert_eq!(send_url("https://mail.example.com"), "https://mail.example.com/email");
}

#[test]
fn the_wire_request_keeps_every_field_verbatim() {
    let request = SendEmailRequest::new(
        "newsletter@example.com",
        "ursula_le_guin@gmail.com",
        "Welcome!",
        "<p>hi</p>",
        "hi",
    );
    assert_eq!(request.from, "newsletter@example.com");
    assert_eq!(request.to, "ursula_le_guin@gmail.com");
    assert_eq!(request.subject, "Welcome!");
    assert_eq!(request.html_content, "<p>hi</p>");
    assert_eq!(request.text_content, "hi");
}
