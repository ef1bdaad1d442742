use zero2prod::routes::login::login;
use zero2prod::routes::login::login_error_fragment;
use zero2prod::routes::login::FlashSlot;
use zero2prod::routes::login::LoginError;
use zero2prod::routes::login::LoginFormData;
use zero2prod::store::SubscriberStore;

#[test]
fn an_unknown_username_redirects_with_a_one_shot_message() {
    let store = SubscriberStore::new();
    let form = LoginFormData { username: "gino".to_string(), password: "pilotino".to_string() };
    let response = login(&store, form);
    assert_eq!(response.status, 303);
    assert_eq!(response.location, "/login");
    let message = response.flash.unwrap();
    assert_eq!(message, "Auth failed");

    let mut slot = FlashSlot::new();
    slot.post(message);
    assert_eq!(slot.take().unwrap(), "Auth failed");
    assert!(slot.take().is_none());
}

#[test]
fn a_wrong_password_reads_the_same_as_an_unknown_username() {
    let mut store = SubscriberStore::new();
    assert!(store.add_user(1, "gino".to_string(), "pilotino".to_string()));
    let form = LoginFormData { username: "gino".to_string(), password: "wrong".to_string() };
    let response = login(&store, form);
    assert_eq!(response.status, 303);
    assert_eq!(response.location, "/login");
    assert_eq!(response.flash.unwrap(), "Auth failed");
}

#[test]
fn valid_credentials_redirect_home_with_no_message() {
    let mut store = SubscriberStore::new();
    assert!(store.add_user(1, "gino".to_string(), "pilotino".to_string()));
    let form = LoginFormData { username: "gino".to_string(), password: "pilotino".to_string() };
    let response = login(&store, form);
    assert_eq!(response.status, 303);
    assert_eq!(response.location, "/");
    assert!(response.flash.is_none());
}

#[test]
fn the_login_error_redirect_status_is_303() {
    let error = LoginError::AuthError("cause".to_string());
    assert_eq!(error.status_code(), 303);
    assert_eq!(error.message(), "Auth failed");
}

#[test]
fn the_error_fragment_entity_encodes_the_message() {
    let fragment = login_error_fragment("<b>oops</b>");
    assert_eq!(fragment, "<p><i>&lt;b&gt;oops&lt;/b&gt;</i></p>");
}

#[test]
fn all_five_minimal_entities_are_encoded() {
    let fragment = login_error_fragment("\"&'<> ok");
    assert_eq!(fragment, "<p><i>&quot;&amp;&#x27;&lt;&gt; ok</i></p>");
}
