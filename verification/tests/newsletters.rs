use argon2::password_hash::SaltString;
use argon2::{Argon2, PasswordHasher};
use base64::Engine;
use zero2prod_axum::email_client::MailSink;
use zero2prod_axum::newsletters::{publish_newsletter, BodyData, Content, PublishError};
use zero2prod_axum::store::{Store, SubscriberRow, SubscriberStatus};

fn phc_hash_of(password: &str) -> String {
    let salt = SaltString::encode_b64(b"somesaltysalt").unwrap();
    Argon2::default()
        .hash_password(password.as_bytes(), &salt)
        .unwrap()
        .to_string()
}

fn confirmed_row(id: u128, email: &str) -> SubscriberRow {
    SubscriberRow {
        id,
        email: email.to_string(),
        name: format!("subscriber {id}"),
        subscribed_at: "2024-01-01 00:00:00".to_string(),
        status: SubscriberStatus::Confirmed,
    }
}

fn store_with_confirmed(emails: &[&str]) -> Store {
    let mut store = Store::new();
    store
        .add_user(
            1,
            "publisher".to_string(),
            phc_hash_of("everythinghastostartsomewhere"),
        )
        .unwrap();
    for (i, email) in emails.iter().enumerate() {
        store
            .subscribers
            .push(confirmed_row(100 + i as u128, email));
    }
    store
}

fn auth_header(username: &str, password: &str) -> Vec<u8> {
    let mut header = b"Basic ".to_vec();
    let payload = format!("{username}:{password}");
    header.extend_from_slice(
        base64::engine::general_purpose::STANDARD
            .encode(payload.as_bytes())
            .as_bytes(),
    );
    header
}

fn issue() -> BodyData {
    BodyData {
        title: "Newsletter title".to_string(),
        content: Content {
            html: "<p>Newsletter body as HTML</p>".to_string(),
            text: "Newsletter body as plain text".to_string(),
        },
    }
}

#[test]
fn newsletters_reach_every_confirmed_subscriber() {
    let store = store_with_confirmed(&["a@example.com", "b@example.com", "c@example.com"]);
    let mut sink = MailSink::new();
    let header = auth_header("publisher", "everythinghastostartsomewhere");
    let r = publish_newsletter(&store, &mut sink, Some(header.as_slice()), &issue());
    assert!(r.is_ok());
    let recipients: Vec<&str> = sink.sent.iter().map(|m| m.recipient.as_str()).collect();
    assert_eq!(recipients, vec!["a@example.com", "b@example.com", "c@example.com"]);
    assert!(sink
        .sent
        .iter()
        .all(|m| m.subject == "Newsletter title"
            && m.html_content == "<p>Newsletter body as HTML</p>"
            && m.text_content == "Newsletter body as plain text"));
}

#[test]
fn a_corrupted_stored_email_is_skipped_and_the_rest_still_delivered() {
    let store = store_with_confirmed(&["a@example.com", "not-an-email", "c@example.com"]);
    let mut sink = MailSink::new();
    let header = auth_header("publisher", "everythinghastostartsomewhere");
    let r = publish_newsletter(&store, &mut sink, Some(header.as_slice()), &issue());
    assert!(r.is_ok());
    let recipients: Vec<&str> = sink.sent.iter().map(|m| m.recipient.as_str()).collect();
    assert_eq!(recipients, vec!["a@example.com", "c@example.com"]);
}

#[test]
fn a_transport_failure_aborts_the_remaining_fanout() {
    let store = store_with_confirmed(&["a@example.com", "b@example.com", "c@example.com"]);
    // First send succeeds, second fails at the transport.
    let mut sink = MailSink::with_script(vec![true, false]);
    let header = auth_header("publisher", "everythinghastostartsomewhere");
    let r = publish_newsletter(&store, &mut sink, Some(header.as_slice()), &issue());
    assert!(matches!(r, Err(PublishError::UnexpectedError)));
    // Only the first message went out, and the third send was never
    // attempted: exactly two outcomes were consumed.
    assert_eq!(sink.sent.len(), 1);
    assert_eq!(sink.sent[0].recipient, "a@example.com");
    assert_eq!(sink.cursor, 2);
}

#[test]
fn pending_subscribers_receive_nothing() {
    let mut store = store_with_confirmed(&[]);
    store.subscribers.push(SubscriberRow {
        id: 100,
        email: "pending@example.com".to_string(),
        name: "pending".to_string(),
        subscribed_at: "2024-01-01 00:00:00".to_string(),
        status: SubscriberStatus::PendingConfirmation,
    });
    let mut sink = MailSink::new();
    let header = auth_header("publisher", "everythinghastostartsomewhere");
    let r = publish_newsletter(&store, &mut sink, Some(header.as_slice()), &issue());
    assert!(r.is_ok());
    assert_eq!(sink.sent.len(), 0);
}

#[test]
fn a_missing_authorization_header_is_refused() {
    let store = store_with_confirmed(&["a@example.com"]);
    let mut sink = MailSink::new();
    let r = publish_newsletter(&store, &mut sink, None, &issue());
    assert!(matches!(r, Err(PublishError::AuthError)));
    assert_eq!(sink.sent.len(), 0);
}

#[test]
fn a_wrong_password_is_refused() {
    let store = store_with_confirmed(&["a@example.com"]);
    let mut sink = MailSink::new();
    let header = auth_header("publisher", "guess");
    let r = publish_newsletter(&store, &mut sink, Some(header.as_slice()), &issue());
    assert!(matches!(r, Err(PublishError::AuthError)));
    assert_eq!(sink.sent.len(), 0);
}

#[test]
fn an_unknown_username_is_refused() {
    let store = store_with_confirmed(&["a@example.com"]);
    let mut sink = MailSink::new();
    let header = auth_header("nobody", "everythinghastostartsomewhere");
    let r = publish_newsletter(&store, &mut sink, Some(header.as_slice()), &issue());
    assert!(matches!(r, Err(PublishError::AuthError)));
    assert_eq!(sink.sent.len(), 0);
}

#[test]
fn a_malformed_header_is_refused() {
    let store = store_with_confirmed(&["a@example.com"]);
    let mut sink = MailSink::new();
    let r = publish_newsletter(&store, &mut sink, Some(b"Bearer zzz".as_slice()), &issue());
    assert!(matches!(r, Err(PublishError::AuthError)));
    assert_eq!(sink.sent.len(), 0);
}
