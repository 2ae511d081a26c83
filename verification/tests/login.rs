use argon2::password_hash::SaltString;
use argon2::{Argon2, PasswordHasher};
use zero2prod_axum::authentication::Credentials;
use zero2prod_axum::login::{login, LoginError, QueryParams};
use zero2prod_axum::store::Store;

const SECRET: &[u8] = b"super-secret-signing-key";

fn store_with_user(username: &str, password: &str, user_id: u128) -> Store {
    let salt = SaltString::encode_b64(b"somesaltysalt").unwrap();
    let hash = Argon2::default()
        .hash_password(password.as_bytes(), &salt)
        .unwrap()
        .to_string();
    let mut store = Store::new();
    store.add_user(user_id, username.to_string(), hash).unwrap();
    store
}

#[test]
fn a_successful_login_returns_the_user_id() {
    let store = store_with_user("admin", "everythinghastostartsomewhere", 9);
    let credentials = Credentials {
        username: "admin".to_string(),
        password: "everythinghastostartsomewhere".to_string(),
    };
    assert_eq!(login(&credentials, &store, SECRET).unwrap(), 9);
}

#[test]
fn a_failed_login_carries_a_verifiable_signed_error() {
    let store = store_with_user("admin", "everythinghastostartsomewhere", 9);
    let credentials = Credentials {
        username: "admin".to_string(),
        password: "guess".to_string(),
    };
    let err = login(&credentials, &store, SECRET).unwrap_err();
    let query = match err {
        LoginError::AuthError(q) => q,
        LoginError::UnexpectedError => panic!("expected an authentication failure"),
    };
    let tag_start = query.find("&tag=").unwrap();
    let tag = query[tag_start + "&tag=".len()..].to_string();
    let params = QueryParams {
        error: "Invalid credentials.".to_string(),
        tag,
    };
    assert_eq!(params.verify(SECRET).unwrap(), "Invalid credentials.");
}

#[test]
fn an_unknown_username_fails_like_a_wrong_password() {
    let store = store_with_user("admin", "everythinghastostartsomewhere", 9);
    let credentials = Credentials {
        username: "ghost".to_string(),
        password: "everythinghastostartsomewhere".to_string(),
    };
    assert!(matches!(
        login(&credentials, &store, SECRET),
        Err(LoginError::AuthError(_))
    ));
}

#[test]
fn a_corrupt_stored_hash_is_an_unexpected_login_error() {
    let mut store = Store::new();
    store
        .add_user(3, "admin".to_string(), "not a phc string".to_string())
        .unwrap();
    let credentials = Credentials {
        username: "admin".to_string(),
        password: "anything".to_string(),
    };
    assert!(matches!(
        login(&credentials, &store, SECRET),
        Err(LoginError::UnexpectedError)
    ));
}
