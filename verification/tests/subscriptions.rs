use zero2prod_axum::email_client::MailSink;
use zero2prod_axum::store::{Store, SubscriberRow, SubscriberStatus, TokenRow, Transaction};
use zero2prod_axum::subscriptions::{generate_subscription_token, subscribe, ApplicationBaseUrl,
    SignUp, SubscriptionsError};
use zero2prod_axum::subscriptions_confirm::{confirm, ConfirmOutcome, Parameters};

fn base_url() -> ApplicationBaseUrl {
    ApplicationBaseUrl("https://newsletter.example/".to_string())
}

fn sign_up(name: &str, email: &str) -> SignUp {
    SignUp {
        name: name.to_string(),
        email: email.to_string(),
    }
}

#[test]
fn generated_tokens_are_25_alphanumeric_characters() {
    for _ in 0..16 {
        let token = generate_subscription_token();
        assert_eq!(token.chars().count(), 25);
        assert!(token.chars().all(|c| c.is_ascii_alphanumeric()));
    }
}

#[test]
fn generated_tokens_are_not_constant() {
    assert_ne!(generate_subscription_token(), generate_subscription_token());
}

#[test]
fn subscribe_persists_the_new_subscriber_with_its_token() {
    let mut store = Store::new();
    let mut sink = MailSink::new();
    let r = subscribe(&mut store, &mut sink, &base_url(), sign_up("bird and boy", "bnb@example.com"));
    assert!(r.is_ok());
    assert_eq!(store.subscribers.len(), 1);
    let row = &store.subscribers[0];
    assert_eq!(row.email, "bnb@example.com");
    assert_eq!(row.name, "bird and boy");
    assert!(matches!(row.status, SubscriberStatus::PendingConfirmation));
    assert_eq!(store.subscription_tokens.len(), 1);
    assert_eq!(store.subscription_tokens[0].subscriber_id, row.id);
    assert_eq!(store.subscription_tokens[0].subscription_token.len(), 25);
}

#[test]
fn subscribe_rejects_a_bad_email_and_persists_nothing() {
    let mut store = Store::new();
    let mut sink = MailSink::new();
    let r = subscribe(&mut store, &mut sink, &base_url(), sign_up("birb", "tyranosaurusrex"));
    assert!(matches!(r, Err(SubscriptionsError::ValidationError(_))));
    assert_eq!(store.subscribers.len(), 0);
    assert_eq!(store.subscription_tokens.len(), 0);
    assert_eq!(sink.sent.len(), 0);
}

#[test]
fn subscribe_rejects_a_bad_name_and_persists_nothing() {
    let mut store = Store::new();
    let mut sink = MailSink::new();
    let r = subscribe(&mut store, &mut sink, &base_url(), sign_up("", "bb@example.com"));
    assert!(matches!(r, Err(SubscriptionsError::ValidationError(_))));
    assert_eq!(store.subscribers.len(), 0);
    assert_eq!(sink.sent.len(), 0);
}

#[test]
fn subscribe_reports_a_failed_notification_but_keeps_the_rows() {
    let mut store = Store::new();
    let mut sink = MailSink::with_script(vec![false]);
    let r = subscribe(&mut store, &mut sink, &base_url(), sign_up("bird and boy", "bnb@example.com"));
    assert!(matches!(r, Err(SubscriptionsError::NotificationError)));
    assert_eq!(store.subscribers.len(), 1);
    assert_eq!(store.subscription_tokens.len(), 1);
    assert_eq!(sink.sent.len(), 0);
}

#[test]
fn commit_refuses_a_conflicting_token_and_changes_nothing() {
    let mut store = Store::new();
    let mut sink = MailSink::new();
    subscribe(&mut store, &mut sink, &base_url(), sign_up("bird and boy", "bnb@example.com"))
        .unwrap();
    let taken = store.subscription_tokens[0].subscription_token.clone();
    let txn = Transaction {
        new_subscribers: vec![SubscriberRow {
            id: 999,
            email: "x@example.com".to_string(),
            name: "x".to_string(),
            subscribed_at: "2024-01-01 00:00:00".to_string(),
            status: SubscriberStatus::PendingConfirmation,
        }],
        new_tokens: vec![TokenRow {
            subscription_token: taken,
            subscriber_id: 999,
        }],
    };
    assert!(store.commit(txn).is_err());
    assert_eq!(store.subscribers.len(), 1);
    assert_eq!(store.subscription_tokens.len(), 1);
}

#[test]
fn every_pending_subscriber_has_a_matching_token() {
    let mut store = Store::new();
    let mut sink = MailSink::new();
    subscribe(&mut store, &mut sink, &base_url(), sign_up("bird and boy", "bnb@example.com"))
        .unwrap();
    subscribe(&mut store, &mut sink, &base_url(), sign_up("le guin", "ursula_le_guin@gmail.com"))
        .unwrap();
    for row in &store.subscribers {
        assert!(matches!(row.status, SubscriberStatus::PendingConfirmation));
        assert!(store
            .subscription_tokens
            .iter()
            .any(|t| t.subscriber_id == row.id));
    }
}

#[test]
fn confirming_a_valid_token_confirms_the_subscriber() {
    let mut store = Store::new();
    let mut sink = MailSink::new();
    subscribe(&mut store, &mut sink, &base_url(), sign_up("le guin", "ursula_le_guin@gmail.com"))
        .unwrap();
    let token = store.subscription_tokens[0].subscription_token.clone();
    let outcome = confirm(&mut store, &Parameters { subscription_token: token });
    assert!(matches!(outcome, ConfirmOutcome::Confirmed));
    assert!(matches!(store.subscribers[0].status, SubscriberStatus::Confirmed));
}

#[test]
fn confirming_the_same_token_twice_is_idempotent() {
    let mut store = Store::new();
    let mut sink = MailSink::new();
    subscribe(&mut store, &mut sink, &base_url(), sign_up("le guin", "ursula_le_guin@gmail.com"))
        .unwrap();
    let token = store.subscription_tokens[0].subscription_token.clone();
    let params = Parameters { subscription_token: token.clone() };
    assert!(matches!(confirm(&mut store, &params), ConfirmOutcome::Confirmed));
    let snapshot_email = store.subscribers[0].email.clone();
    assert!(matches!(confirm(&mut store, &params), ConfirmOutcome::Confirmed));
    assert!(matches!(store.subscribers[0].status, SubscriberStatus::Confirmed));
    assert_eq!(store.subscribers[0].email, snapshot_email);
    assert_eq!(store.subscribers.len(), 1);
}

#[test]
fn confirming_an_unknown_token_is_unauthorized_and_mutates_nothing() {
    let mut store = Store::new();
    let mut sink = MailSink::new();
    subscribe(&mut store, &mut sink, &base_url(), sign_up("le guin", "ursula_le_guin@gmail.com"))
        .unwrap();
    let params = Parameters {
        subscription_token: "definitelynotatoken123456".to_string(),
    };
    let outcome = confirm(&mut store, &params);
    assert!(matches!(outcome, ConfirmOutcome::Unauthorized));
    assert!(matches!(
        store.subscribers[0].status,
        SubscriberStatus::PendingConfirmation
    ));
    assert_eq!(store.subscribers.len(), 1);
    assert_eq!(store.subscription_tokens.len(), 1);
}

#[test]
fn sign_up_and_confirmation_end_to_end() {
    let mut store = Store::new();
    let mut sink = MailSink::new();
    let r = subscribe(&mut store, &mut sink, &base_url(), sign_up("bird and boy", "bnb@example.com"));
    assert!(r.is_ok());

    assert_eq!(store.subscribers.len(), 1);
    assert!(matches!(
        store.subscribers[0].status,
        SubscriberStatus::PendingConfirmation
    ));

    // Exactly one confirmation email, holding exactly one confirmation
    // link.
    assert_eq!(sink.sent.len(), 1);
    let mail = &sink.sent[0];
    assert_eq!(mail.recipient, "bnb@example.com");
    let marker = "subscriptions/confirm?subscription_token=";
    assert_eq!(mail.html_content.matches(marker).count(), 1);
    assert_eq!(mail.text_content.matches(marker).count(), 1);
    let link_start = mail.html_content.find(marker).unwrap();
    let token: String = mail.html_content[link_start + marker.len()..]
        .chars()
        .take_while(|c| c.is_ascii_alphanumeric())
        .collect();
    assert_eq!(token.len(), 25);
    // The mailed capability is the stored one.
    assert_eq!(token, store.subscription_tokens[0].subscription_token);
    assert!(mail
        .html_content
        .contains(&format!("https://newsletter.example/{marker}{token}")));

    // Following the link confirms the subscriber.
    let outcome = confirm(&mut store, &Parameters { subscription_token: token });
    assert!(matches!(outcome, ConfirmOutcome::Confirmed));
    assert!(matches!(store.subscribers[0].status, SubscriberStatus::Confirmed));
    assert_eq!(store.subscribers[0].email, "bnb@example.com");
    assert_eq!(store.subscribers[0].name, "bird and boy");
}

#[test]
fn a_taken_username_cannot_be_registered_twice() {
    let mut store = Store::new();
    store
        .add_user(1, "publisher".to_string(), "hash-one".to_string())
        .unwrap();
    assert!(store
        .add_user(2, "publisher".to_string(), "hash-two".to_string())
        .is_err());
    assert_eq!(store.users.len(), 1);
}
