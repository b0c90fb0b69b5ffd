use zero2prod::domain::{SubscriberData, SubscriberEmail};
use zero2prod::email_client::EmailClient;
use zero2prod::store::{SubscriberStore, SubscriptionStatus};
use zero2prod::subscriptions::{
    confirmation_link, error_chain_fmt, generate_subscription_token, subscribe, SubscribeError,
};
use zero2prod::subscriptions_confirm::{confirm, ConfirmError, Parameters};

fn email_client() -> EmailClient {
    let sender = SubscriberEmail::parse("newsletter@example.com".to_string()).unwrap();
    EmailClient::new(
        "http://mail.example.com".to_string(),
        sender,
        "SECRET-REDACTED".to_string(),
        200,
    )
}

fn form() -> SubscriberData {
    SubscriberData {
        email: "ursula_le_guin@gmail.com".to_string(),
        name: "le guin".to_string(),
    }
}

/// The token embedded in the confirmation link of an email body.
fn token_of(body: &str) -> String {
    let marker = "subscription_token=";
    let start = body.find(marker).expect("no confirmation link in the body") + marker.len();
    body[start..start + 25].to_string()
}

#[test]
fn tokens_are_25_alphanumeric_characters() {
    let token = generate_subscription_token();
    assert_eq!(token.chars().count(), 25);
    assert!(token.chars().all(|c| c.is_ascii_alphanumeric()));
}

#[test]
fn two_tokens_differ() {
    assert_ne!(generate_subscription_token(), generate_subscription_token());
}

#[test]
fn the_confirmation_link_carries_the_token() {
    assert_eq!(
        confirmation_link("https://example.com", "abc"),
        "https://example.com/subscriptions/confirm?subscription_token=abc"
    );
}

#[test]
fn subscribe_stores_a_pending_subscriber() {
    let mut store = SubscriberStore::new();
    let client = email_client();
    let outcome = subscribe(&mut store, &client, "https://example.com", form());
    assert!(outcome.is_ok());
    assert_eq!(store.subscriber_count(), 1);
    assert_eq!(store.token_count(), 1);
    let row = &store.subscribers[0];
    assert_eq!(row.email, "ursula_le_guin@gmail.com");
    assert_eq!(row.name, "le guin");
    assert_eq!(row.status, SubscriptionStatus::PendingConfirmation);
    assert_eq!(store.tokens[0].subscriber_id, row.id);
}

#[test]
fn subscribe_builds_the_welcome_email() {
    let mut store = SubscriberStore::new();
    let client = email_client();
    let req = subscribe(&mut store, &client, "https://example.com", form()).unwrap();
    let token = store.tokens[0].token.clone();
    let link = format!("https://example.com/subscriptions/confirm?subscription_token={}", token);
    assert_eq!(req.url, "http://mail.example.com/email");
    assert_eq!(req.authorization_token, "SECRET-REDACTED");
    assert_eq!(req.from, "newsletter@example.com");
    assert_eq!(req.to, "ursula_le_guin@gmail.com");
    assert_eq!(req.subject, "Welcome!");
    assert_eq!(
        req.text_body,
        format!("Welcome to our newsletter!\nVisit {} to confirm your subscription.", link)
    );
    assert_eq!(
        req.html_body,
        format!(
            "Welcome to our newsletter!<br />Click <a href=\"{}\">here</a> to confirm your subscription.",
            link
        )
    );
}

#[test]
fn subscribe_with_an_empty_email_rejects_and_persists_nothing() {
    let mut store = SubscriberStore::new();
    let client = email_client();
    let data = SubscriberData { email: "".to_string(), name: "le guin".to_string() };
    let err = subscribe(&mut store, &client, "https://example.com", data).unwrap_err();
    assert_eq!(err.status_code(), 400);
    assert!(matches!(err, SubscribeError::ValidationError(_)));
    assert_eq!(store.subscriber_count(), 0);
    assert_eq!(store.token_count(), 0);
}

#[test]
fn subscribe_with_an_empty_name_rejects_and_persists_nothing() {
    let mut store = SubscriberStore::new();
    let client = email_client();
    let data =
        SubscriberData { email: "ursula_le_guin@gmail.com".to_string(), name: "".to_string() };
    let err = subscribe(&mut store, &client, "https://example.com", data).unwrap_err();
    assert_eq!(err.status_code(), 400);
    assert_eq!(store.subscriber_count(), 0);
    assert_eq!(store.token_count(), 0);
}

#[test]
fn subscribe_with_both_fields_empty_rejects_and_persists_nothing() {
    let mut store = SubscriberStore::new();
    let client = email_client();
    let data = SubscriberData { email: "".to_string(), name: "".to_string() };
    let err = subscribe(&mut store, &client, "https://example.com", data).unwrap_err();
    assert_eq!(err.status_code(), 400);
    assert_eq!(store.subscriber_count(), 0);
}

#[test]
fn confirming_without_a_token_is_a_400() {
    let mut store = SubscriberStore::new();
    let err = confirm(&mut store, None).unwrap_err();
    assert!(matches!(err, ConfirmError::MissingToken));
    assert_eq!(err.status_code(), 400);
}

#[test]
fn confirming_with_an_unknown_token_is_a_401() {
    let mut store = SubscriberStore::new();
    let client = email_client();
    subscribe(&mut store, &client, "https://example.com", form()).unwrap();
    let params = Parameters { subscription_token: "tokenNotInDatabase0000000".to_string() };
    let err = confirm(&mut store, Some(params)).unwrap_err();
    assert!(matches!(err, ConfirmError::UnknownToken));
    assert_eq!(err.status_code(), 401);
    assert_eq!(store.subscribers[0].status, SubscriptionStatus::PendingConfirmation);
}

#[test]
fn opening_the_confirmation_link_confirms_the_subscriber() {
    let mut store = SubscriberStore::new();
    let client = email_client();
    let req = subscribe(&mut store, &client, "https://example.com", form()).unwrap();

    let token = token_of(&req.text_body);
    assert_eq!(token, store.tokens[0].token);

    let outcome = confirm(&mut store, Some(Parameters { subscription_token: token.clone() }));
    assert!(outcome.is_ok());
    assert_eq!(store.subscribers[0].status, SubscriptionStatus::Confirmed);
    assert_eq!(store.subscribers[0].email, "ursula_le_guin@gmail.com");
    assert_eq!(store.subscribers[0].name, "le guin");

    // Redeeming the same token again still succeeds and changes nothing.
    let again = confirm(&mut store, Some(Parameters { subscription_token: token }));
    assert!(again.is_ok());
    assert_eq!(store.subscribers[0].status, SubscriptionStatus::Confirmed);
    assert_eq!(store.subscriber_count(), 1);
    assert_eq!(store.token_count(), 1);
}

#[test]
fn subscribe_error_statuses_and_messages() {
    assert_eq!(SubscribeError::PoolError.status_code(), 500);
    assert_eq!(SubscribeError::InsertSubscriberError.status_code(), 500);
    assert_eq!(SubscribeError::StoreTokenError.status_code(), 500);
    assert_eq!(SubscribeError::TransactionCommitError.status_code(), 500);
    assert_eq!(SubscribeError::SendEmailError.status_code(), 500);
    assert_eq!(
        SubscribeError::StoreTokenError.message(),
        "Failed to store the confirmation token for a new subscriber."
    );
    assert_eq!(SubscribeError::SendEmailError.message(), "Failed to send a confirmation email.");
    assert_eq!(
        SubscribeError::PoolError.message(),
        "Failed to acquire a Postgres connection from the pool."
    );
    assert_eq!(
        SubscribeError::InsertSubscriberError.message(),
        "Failed to insert a new subscriber in the database."
    );
    assert_eq!(
        SubscribeError::TransactionCommitError.message(),
        "Failed to commit SQL transaction to store a new subscriber."
    );
    assert_eq!(
        SubscribeError::ValidationError("nope".to_string()).message(),
        "nope"
    );
}

#[test]
fn error_chains_render_every_cause() {
    let causes = vec!["connection reset".to_string(), "broken pipe".to_string()];
    assert_eq!(
        error_chain_fmt("Failed to send a confirmation email.", &causes),
        "Failed to send a confirmation email.\n\nCaused by:\n\tconnection reset\nCaused by:\n\tbroken pipe\n"
    );
}
