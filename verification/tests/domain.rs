use zero2prod::domain::{NewSubscriber, SubscriberData, SubscriberEmail, SubscriberName};

#[test]
fn a_256_grapheme_long_name_is_valid() {
    let name = "a".repeat(256);
    assert!(SubscriberName::parse(name).is_ok());
}

#[test]
fn a_name_longer_than_256_graphemes_is_rejected() {
    let name = "a".repeat(257);
    assert!(SubscriberName::parse(name).is_err());
}

#[test]
fn whitespace_only_names_are_rejected() {
    let name = " ".to_string();
    assert!(SubscriberName::parse(name).is_err());
}

#[test]
fn empty_string_is_rejected() {
    let name = "".to_string();
    assert!(SubscriberName::parse(name).is_err());
}

#[test]
fn names_containing_an_invalid_character_are_rejected() {
    for name in &['/', '(', ')', '"', '<', '>', '\\', '{', '}'] {
        let name = name.to_string();
        assert!(SubscriberName::parse(name).is_err());
    }
}

#[test]
fn a_valid_name_is_parsed_successfully() {
    let name = "Ursula Le Guin".to_string();
    assert!(SubscriberName::parse(name).is_ok());
}

#[test]
fn a_name_error_carries_the_offending_input() {
    let err = SubscriberName::parse("{bad}".to_string()).unwrap_err();
    assert_eq!(err, "{bad} is not a valid subscriber name.");
}

#[test]
fn a_multibyte_name_within_the_limit_is_valid() {
    let name = "å".repeat(256);
    assert!(SubscriberName::parse(name).is_ok());
}

#[test]
fn valid_emails_are_parsed_successfully() {
    for email in ["ursula_le_guin@gmail.com", "a@b.c", "a@b"] {
        let parsed = SubscriberEmail::parse(email.to_string());
        assert!(parsed.is_ok());
        assert_eq!(parsed.unwrap().as_ref(), email);
    }
}

#[test]
fn emails_missing_an_at_symbol_are_rejected() {
    assert!(SubscriberEmail::parse("ursula_le_guin.gmail.com".to_string()).is_err());
}

#[test]
fn emails_with_an_empty_local_part_are_rejected() {
    assert!(SubscriberEmail::parse("@gmail.com".to_string()).is_err());
}

#[test]
fn emails_with_an_empty_domain_are_rejected() {
    assert!(SubscriberEmail::parse("ursula@".to_string()).is_err());
}

#[test]
fn emails_with_two_at_symbols_are_rejected() {
    assert!(SubscriberEmail::parse("a@b@c".to_string()).is_err());
}

#[test]
fn emails_with_a_space_are_rejected() {
    assert!(SubscriberEmail::parse("ursula le_guin@gmail.com".to_string()).is_err());
}

#[test]
fn the_empty_email_is_rejected() {
    let err = SubscriberEmail::parse("".to_string()).unwrap_err();
    assert_eq!(err, " is not a valid subscriber email.");
}

#[test]
fn a_new_subscriber_is_built_from_valid_form_data() {
    let data = SubscriberData {
        email: "ursula_le_guin@gmail.com".to_string(),
        name: "le guin".to_string(),
    };
    let ns = NewSubscriber::try_from(data).unwrap();
    assert_eq!(ns.email.as_ref(), "ursula_le_guin@gmail.com");
    assert_eq!(ns.name.as_ref(), "le guin");
}

#[test]
fn the_name_error_wins_when_both_fields_are_invalid() {
    let data = SubscriberData { email: "".to_string(), name: "".to_string() };
    let err = NewSubscriber::try_from(data).unwrap_err();
    assert_eq!(err, " is not a valid subscriber name.");
}
