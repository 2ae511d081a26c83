use hmac::{Hmac, Mac};
use sha2::Sha256;
use zero2prod_axum::login::{encoded_hmac_error, QueryParams};

const SECRET: &[u8] = b"super-secret-signing-key";

fn split_query(query: &str) -> (String, String) {
    let tag_start = query.find("&tag=").expect("the query must carry a tag");
    let encoded = query["error=".len()..tag_start].to_string();
    let tag = query[tag_start + "&tag=".len()..].to_string();
    (encoded, tag)
}

#[test]
fn signed_error_round_trips() {
    let message = "Invalid credentials.";
    let query = encoded_hmac_error(message, SECRET);
    let (_, tag) = split_query(&query);
    let params = QueryParams {
        error: message.to_string(),
        tag,
    };
    assert_eq!(params.verify(SECRET).unwrap(), message);
}

#[test]
fn the_tag_is_the_hmac_over_the_encoded_message() {
    let message = "Invalid credentials.";
    let query = encoded_hmac_error(message, SECRET);
    let (encoded, tag) = split_query(&query);
    assert_eq!(encoded, urlencoding::encode(message));
    let mut mac = <Hmac<Sha256> as Mac>::new_from_slice(SECRET).unwrap();
    mac.update(format!("error={encoded}").as_bytes());
    let expected = hex::encode(mac.finalize().into_bytes());
    assert_eq!(tag, expected);
}

#[test]
fn a_flipped_tag_character_is_rejected() {
    let message = "Invalid credentials.";
    let query = encoded_hmac_error(message, SECRET);
    let (_, tag) = split_query(&query);
    for i in 0..tag.len() {
        let mut bytes = tag.as_bytes().to_vec();
        bytes[i] = if bytes[i] == b'0' { b'1' } else { b'0' };
        let tampered = String::from_utf8(bytes).unwrap();
        if tampered == tag {
            continue;
        }
        let params = QueryParams {
            error: message.to_string(),
            tag: tampered,
        };
        assert!(params.verify(SECRET).is_err(), "a changed digit must fail");
    }
}

#[test]
fn a_changed_message_is_rejected() {
    let query = encoded_hmac_error("Invalid credentials.", SECRET);
    let (_, tag) = split_query(&query);
    let params = QueryParams {
        error: "Invalid credentials!".to_string(),
        tag,
    };
    assert!(params.verify(SECRET).is_err());
}

#[test]
fn a_truncated_tag_is_rejected() {
    let query = encoded_hmac_error("Invalid credentials.", SECRET);
    let (_, tag) = split_query(&query);
    let params = QueryParams {
        error: "Invalid credentials.".to_string(),
        tag: tag[..tag.len() - 2].to_string(),
    };
    assert!(params.verify(SECRET).is_err());
}

#[test]
fn a_non_hexadecimal_tag_is_rejected() {
    let params = QueryParams {
        error: "Invalid credentials.".to_string(),
        tag: "zz".repeat(32),
    };
    assert!(params.verify(SECRET).is_err());
}

#[test]
fn a_wrong_key_is_rejected() {
    let query = encoded_hmac_error("Invalid credentials.", SECRET);
    let (_, tag) = split_query(&query);
    let params = QueryParams {
        error: "Invalid credentials.".to_string(),
        tag,
    };
    assert!(params.verify(b"some-other-key").is_err());
}
