use argon2::{Argon2, PasswordHasher};
use zero2prod::domain::SubscriberEmail;
use zero2prod::email_client::EmailClient;
use zero2prod::newsletters::{
    basic_authentication, get_confirmed_subscribers, publish_newsletter, validate_credentials,
    verify_password_hash, BodyData, Content, Credentials, PublishError, StoredCredentials,
};
use zero2prod::store::{SubscriberStore, SubscriptionStatus};
use zero2prod::subscriptions::subscribe;
use zero2prod::subscriptions_confirm::{confirm, Parameters};
use zero2prod::domain::SubscriberData;

fn email_client() -> EmailClient {
    let sender = SubscriberEmail::parse("newsletter@example.com".to_string()).unwrap();
    EmailClient::new(
        "http://mail.example.com".to_string(),
        sender,
        "SECRET-REDACTED".to_string(),
        200,
    )
}

fn phc_hash(password: &str) -> String {
    let salt = argon2::password_hash::SaltString::b64_encode(b"0123456789abcdef").unwrap();
    Argon2::default()
        .hash_password(password.as_bytes(), &salt)
        .unwrap()
        .to_string()
}

fn stored(password: &str) -> StoredCredentials {
    StoredCredentials { user_id: 42, password_hash: phc_hash(password) }
}

fn credentials(password: &str) -> Credentials {
    Credentials { username: "publisher".to_string(), password: password.to_string() }
}

fn confirmed_store(emails: &[&str]) -> SubscriberStore {
    let mut store = SubscriberStore::new();
    let client = email_client();
    for email in emails {
        let data = SubscriberData { email: email.to_string(), name: "le guin".to_string() };
        let req = subscribe(&mut store, &client, "https://example.com", data).unwrap();
        let marker = "subscription_token=";
        let start = req.text_body.find(marker).unwrap() + marker.len();
        let token = req.text_body[start..start + 25].to_string();
        confirm(&mut store, Some(Parameters { subscription_token: token })).unwrap();
    }
    store
}

fn body() -> BodyData {
    BodyData {
        title: "Newsletter title".to_string(),
        content: Content {
            html: "<p>Newsletter body as HTML</p>".to_string(),
            text: "Newsletter body as plain text".to_string(),
        },
    }
}

#[test]
fn a_missing_authorization_header_is_rejected() {
    let err = basic_authentication(None).unwrap_err();
    assert_eq!(err, "The 'Authorization' header is missing.");
}

#[test]
fn a_non_basic_scheme_is_rejected() {
    let header = "Bearer abcdef".to_string();
    let err = basic_authentication(Some(&header)).unwrap_err();
    assert_eq!(err, "The authentication scheme is not 'Basic'.");
}

#[test]
fn invalid_base64_credentials_are_rejected() {
    let header = "Basic !!!not-base64!!!".to_string();
    let err = basic_authentication(Some(&header)).unwrap_err();
    assert_eq!(err, "Failed to base64-decode 'Basic' credentials.");
}

#[test]
fn non_utf8_credentials_are_rejected() {
    let header = format!("Basic {}", base64::encode([0xff, 0xfe, 0xfd]));
    let err = basic_authentication(Some(&header)).unwrap_err();
    assert_eq!(err, "The decoded credential string is not valid UTF-8.");
}

#[test]
fn credentials_without_a_colon_are_rejected() {
    let header = format!("Basic {}", base64::encode("no-password-here"));
    let err = basic_authentication(Some(&header)).unwrap_err();
    assert_eq!(err, "A password must be provided in 'Basic' auth.");
}

#[test]
fn well_formed_credentials_are_decoded() {
    let header = format!("Basic {}", base64::encode("publisher:everythinghastostartsomewhere"));
    let creds = basic_authentication(Some(&header)).unwrap();
    assert_eq!(creds.username, "publisher");
    assert_eq!(creds.password, "everythinghastostartsomewhere");
}

#[test]
fn a_password_may_itself_contain_a_colon() {
    let header = format!("Basic {}", base64::encode("publisher:pass:word"));
    let creds = basic_authentication(Some(&header)).unwrap();
    assert_eq!(creds.username, "publisher");
    assert_eq!(creds.password, "pass:word");
}

#[test]
fn the_right_password_verifies() {
    assert!(verify_password_hash(phc_hash("correct horse"), "correct horse".to_string()).is_ok());
}

#[test]
fn a_wrong_password_is_an_auth_error() {
    let err = verify_password_hash(phc_hash("correct horse"), "battery staple".to_string())
        .unwrap_err();
    assert!(matches!(err, PublishError::AuthError(_)));
}

#[test]
fn a_malformed_stored_hash_is_unexpected() {
    let err =
        verify_password_hash("not-a-phc-string".to_string(), "anything".to_string()).unwrap_err();
    assert!(matches!(err, PublishError::UnexpectedError(_)));
}

#[test]
fn an_unknown_username_is_an_auth_error() {
    let err = validate_credentials(None, &credentials("anything")).unwrap_err();
    assert!(matches!(err, PublishError::AuthError(_)));
    assert_eq!(err.error_response().status_code, 401);
}

#[test]
fn a_wrong_password_yields_401_with_the_challenge_header() {
    let err =
        validate_credentials(Some(stored("right")), &credentials("wrong")).unwrap_err();
    let response = err.error_response();
    assert_eq!(response.status_code, 401);
    assert_eq!(response.www_authenticate.unwrap(), "Basic realm=\"publish\"");
}

#[test]
fn the_right_credentials_validate_to_the_user_id() {
    let user_id = validate_credentials(
        Some(stored("everythinghastostartsomewhere")),
        &credentials("everythinghastostartsomewhere"),
    )
    .unwrap();
    assert_eq!(user_id, 42);
}

#[test]
fn an_unexpected_error_is_a_plain_500() {
    let response = PublishError::UnexpectedError("boom".to_string()).error_response();
    assert_eq!(response.status_code, 500);
    assert!(response.www_authenticate.is_none());
    assert_eq!(PublishError::UnexpectedError("boom".to_string()).message(), "boom");
    assert_eq!(
        PublishError::AuthError("whatever".to_string()).message(),
        "Authentication failed."
    );
}

#[test]
fn every_confirmed_subscriber_gets_exactly_one_email() {
    let store = confirmed_store(&["a@b.c", "d@e.f"]);
    let client = email_client();
    let requests = publish_newsletter(&store, &client, &body());
    assert_eq!(requests.len(), 2);
    assert_eq!(requests[0].to, "a@b.c");
    assert_eq!(requests[1].to, "d@e.f");
    for req in &requests {
        assert_eq!(req.url, "http://mail.example.com/email");
        assert_eq!(req.from, "newsletter@example.com");
        assert_eq!(req.subject, "Newsletter title");
        assert_eq!(req.text_body, "Newsletter body as plain text");
        assert_eq!(req.html_body, "<p>Newsletter body as HTML</p>");
    }
}

#[test]
fn pending_subscribers_get_no_newsletter() {
    let mut store = confirmed_store(&["a@b.c"]);
    let client = email_client();
    // A second subscriber signs up but never confirms.
    let data = SubscriberData { email: "d@e.f".to_string(), name: "le guin".to_string() };
    subscribe(&mut store, &client, "https://example.com", data).unwrap();
    assert_eq!(store.subscribers[1].status, SubscriptionStatus::PendingConfirmation);

    let requests = publish_newsletter(&store, &client, &body());
    assert_eq!(requests.len(), 1);
    assert_eq!(requests[0].to, "a@b.c");
}

#[test]
fn confirmed_subscribers_parse_back_from_the_store() {
    let store = confirmed_store(&["a@b.c"]);
    let subscribers = get_confirmed_subscribers(&store);
    assert_eq!(subscribers.len(), 1);
    assert_eq!(subscribers[0].as_ref().unwrap().as_ref(), "a@b.c");
}
