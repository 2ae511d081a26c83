use zero2prod_axum::domain::{SubscriberEmail, SubscriberName};

#[test]
fn empty_string_is_rejected() {
    let email = "".to_string();
    assert!(SubscriberEmail::parse(email).is_err());
}

#[test]
fn email_missing_at_symbol_is_rejected() {
    let email = "example.com".to_string();
    assert!(SubscriberEmail::parse(email).is_err());
}

#[test]
fn email_missing_subject_is_rejected() {
    let email = "@example.com".to_string();
    assert!(SubscriberEmail::parse(email).is_err());
}

#[test]
fn plain_well_formed_email_is_accepted() {
    let parsed = SubscriberEmail::parse("user@domain.tld".to_string());
    assert!(parsed.is_ok());
    assert_eq!(parsed.unwrap().as_ref(), "user@domain.tld");
}

#[test]
fn underscored_email_is_accepted() {
    assert!(SubscriberEmail::parse("ursula_le_guin@gmail.com".to_string()).is_ok());
}

#[test]
fn name_with_each_forbidden_character_is_rejected() {
    for c in ['/', '(', ')', '"', '<', '>', '\\', '{', '}'] {
        let name = format!("valid name {c}");
        assert!(
            SubscriberName::parse(name).is_err(),
            "a name containing {c:?} must be rejected"
        );
    }
}

#[test]
fn whitespace_only_name_is_rejected() {
    assert!(SubscriberName::parse("   ".to_string()).is_err());
}

#[test]
fn empty_name_is_rejected() {
    assert!(SubscriberName::parse("".to_string()).is_err());
}

#[test]
fn name_of_256_graphemes_is_accepted() {
    let name = "a".repeat(256);
    assert!(SubscriberName::parse(name).is_ok());
}

#[test]
fn name_of_257_graphemes_is_rejected() {
    let name = "a".repeat(257);
    assert!(SubscriberName::parse(name).is_err());
}

#[test]
fn valid_name_is_kept_unchanged() {
    let parsed = SubscriberName::parse("bird and boy".to_string()).unwrap();
    assert_eq!(parsed.inner_ref(), "bird and boy");
}

#[test]
fn grapheme_budget_counts_clusters_not_bytes() {
    // 256 two-codepoint clusters: within budget although well over 256
    // codepoints.
    let name = "o\u{0308}".repeat(256);
    assert!(SubscriberName::parse(name).is_ok());
}
