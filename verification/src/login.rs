//! The HMAC-signed error channel around login: a failure message is
//! URL-encoded, tagged with an HMAC over its encoded form, and carried
//! through a redirect; the next page load verifies the tag before it
//! shows the message, and a tag that does not check degrades to
//! showing nothing.

use crate::authentication::{password_matches, phc_valid, validate_credentials, AuthError,
    Credentials};
use crate::encoding::{hex_chars_of, hex_decode, hex_decoded, hex_digit_val, hex_encode,
    lemma_hex_chars_len, lemma_hex_decoded_determines_digits, lemma_hex_round_trip};
use crate::store::Store;
use hmac::{Hmac, Mac};
use sha2::Sha256;
use vstd::prelude::*;
use vstd::utf8::encode_utf8;

verus! {

/// The HMAC-SHA256 tag over a message under a key.
pub uninterp spec fn hmac_sha256_of(key: Seq<u8>, msg: Seq<u8>) -> Seq<u8>;

/// Relies on hmac with sha2's Sha256 (`Mac::new_from_slice`, `update`,
/// `finalize`): the 32-byte tag depends on the key and message bytes
/// alone, and any key length is accepted.
#[verifier::external_body]
fn hmac_sha256_tag(key: &[u8], msg: &[u8]) -> (tag: Vec<u8>)
    ensures
        tag@ == hmac_sha256_of(key@, msg@),
        tag@.len() == 32,
{
    let mut mac = <Hmac<Sha256> as Mac>::new_from_slice(key).expect(
        "HMAC accepts keys of any length",
    );
    mac.update(msg);
    mac.finalize().into_bytes().to_vec()
}

/// Relies on hmac's `Mac::verify_slice`: it succeeds exactly when the
/// presented tag equals the computed one — compared in constant time —
/// and a tag of the wrong length never passes.
#[verifier::external_body]
fn hmac_sha256_check(key: &[u8], msg: &[u8], tag: &[u8]) -> (r: bool)
    ensures
        r == (tag@ == hmac_sha256_of(key@, msg@)),
{
    let mut mac = <Hmac<Sha256> as Mac>::new_from_slice(key).expect(
        "HMAC accepts keys of any length",
    );
    mac.update(msg);
    mac.verify_slice(tag).is_ok()
}

/// The percent-encoded form of a string.
pub uninterp spec fn url_encoded(s: Seq<char>) -> Seq<char>;

/// Relies on urlencoding's `encode`: the percent-encoded form depends
/// on the characters alone.
#[verifier::external_body]
fn urlencode(s: &str) -> (r: String)
    ensures
        r@ == url_encoded(s@),
{
    urlencoding::encode(s).into_owned()
}

/// The query fragment the tag is computed over.
pub open spec fn spec_error_query(err: Seq<char>) -> Seq<char> {
    "error="@ + url_encoded(err)
}

/// The tag protecting an error message under a signing key.
pub open spec fn spec_error_tag(key: Seq<u8>, err: Seq<char>) -> Seq<u8> {
    hmac_sha256_of(key, encode_utf8(spec_error_query(err)))
}

/// The full signed query string a login failure redirects with.
pub open spec fn spec_signed_query(key: Seq<u8>, err: Seq<char>) -> Seq<char> {
    spec_error_query(err) + "&tag="@ + hex_chars_of(spec_error_tag(key, err))
}

/// Builds `error=<encoded message>&tag=<hex of hmac>` for a redirect.
pub fn encoded_hmac_error(error: &str, secret: &[u8]) -> (q: String)
    ensures
        q@ == spec_signed_query(secret@, error@),
{
    let encoded_error = String::from_str("error=").concat(urlencode(error).as_str());
    let hmac_tag = hmac_sha256_tag(secret, encoded_error.as_str().as_bytes());
    let tag_hex = hex_encode(hmac_tag.as_slice());
    encoded_error.concat("&tag=").concat(tag_hex.as_str())
}

/// The query parameters the login page receives back after a failure
/// redirect: the message and its protecting tag.
pub struct QueryParams {
    pub error: String,
    pub tag: String,
}

impl QueryParams {
    /// Recomputes the tag over the re-encoded message and compares it
    /// with the received one; only a tag spelling the true HMAC hands
    /// the message back. Any mismatch — a truncated tag, a non-hex
    /// character, a changed message — is an error the caller shows
    /// nothing for.
    pub fn verify(self, secret: &[u8]) -> (r: Result<String, String>)
        ensures
            r is Ok <==> hex_decoded(self.tag@) == Some(spec_error_tag(secret@, self.error@)),
            r is Ok ==> r.unwrap()@ == self.error@,
    {
        let tag = match hex_decode(self.tag.as_str()) {
            Some(t) => t,
            None => {
                return Err(String::from_str("the tag is not a hexadecimal string"));
            },
        };
        let query_string = String::from_str("error=").concat(
            urlencode(self.error.as_str()).as_str(),
        );
        if hmac_sha256_check(secret, query_string.as_str().as_bytes(), tag.as_slice()) {
            Ok(self.error)
        } else {
            Err(String::from_str("the tag does not match the message"))
        }
    }
}

/// Round trip: the tag spelled by [`encoded_hmac_error`] decodes back
/// to the true HMAC, so verification of an untampered redirect
/// succeeds and yields the original message.
pub proof fn lemma_signed_error_round_trip(key: Seq<u8>, err: Seq<char>)
    ensures
        hex_decoded(hex_chars_of(spec_error_tag(key, err))) == Some(spec_error_tag(key, err)),
{
    lemma_hex_round_trip(spec_error_tag(key, err));
}

/// Tamper evidence for the tag: a presented tag passes verification
/// only if it has the exact length of the true tag's spelling and
/// spells, digit for digit, the same values — so any change that
/// alters a digit's value, drops a character, or breaks the
/// hexadecimal form is rejected. (Digits differing only in letter
/// case denote the same value and are the one accepted variation.)
pub proof fn lemma_verifying_tag_spells_true_tag(key: Seq<u8>, err: Seq<char>, tag: Seq<char>)
    requires
        hex_decoded(tag) == Some(spec_error_tag(key, err)),
    ensures
        tag.len() == hex_chars_of(spec_error_tag(key, err)).len(),
        forall|i: int|
            0 <= i < tag.len() ==> hex_digit_val(#[trigger] tag[i]) == hex_digit_val(
                hex_chars_of(spec_error_tag(key, err))[i],
            ),
{
    let h = spec_error_tag(key, err);
    lemma_hex_round_trip(h);
    lemma_hex_chars_len(h);
    lemma_hex_decoded_determines_digits(tag, h);
    lemma_hex_decoded_determines_digits(hex_chars_of(h), h);
    assert forall|i: int|
        0 <= i < tag.len() implies hex_digit_val(#[trigger] tag[i]) == hex_digit_val(
        hex_chars_of(h)[i],
    ) by {
        let k = i / 2;
        assert(0 <= k < h.len());
        assert(hex_digit_val(tag[2 * k]) == h[k] as int / 16);
        assert(hex_digit_val(tag[2 * k + 1]) == h[k] as int % 16);
        assert(hex_digit_val(hex_chars_of(h)[2 * k]) == h[k] as int / 16);
        assert(hex_digit_val(hex_chars_of(h)[2 * k + 1]) == h[k] as int % 16);
        if i % 2 == 0 {
            assert(i == 2 * k);
        } else {
            assert(i == 2 * k + 1);
        }
    }
}

/// How a login attempt fails: an authentication failure carries the
/// signed query string for the redirect; everything else is opaque.
#[derive(Debug)]
pub enum LoginError {
    AuthError(String),
    UnexpectedError,
}

/// The username is stored, its hash parses, and the candidate
/// password matches it.
pub open spec fn spec_login_accepted(store: Store, username: Seq<char>, password: Seq<char>) -> bool {
    store.spec_has_user(username) && phc_valid(store.spec_user_hash(username))
        && password_matches(store.spec_user_hash(username), password)
}

/// An unknown username, or a stored hash that parses but does not
/// match the candidate password: the two refusals a caller cannot
/// tell apart.
pub open spec fn spec_login_refused(store: Store, username: Seq<char>, password: Seq<char>) -> bool {
    !store.spec_has_user(username) || (phc_valid(store.spec_user_hash(username))
        && !password_matches(store.spec_user_hash(username), password))
}

/// Checks the submitted credentials and, on an authentication
/// failure, prepares the signed error query for the redirect. The
/// signed message never names the stored record.
pub fn login(credentials: &Credentials, store: &Store, secret: &[u8]) -> (r: Result<
    u128,
    LoginError,
>)
    requires
        store.wf(),
    ensures
        spec_login_accepted(*store, credentials.username@, credentials.password@) ==> r
            == Ok::<u128, LoginError>(store.spec_user_id(credentials.username@)),
        spec_login_refused(*store, credentials.username@, credentials.password@) ==> (r matches Err(
            LoginError::AuthError(q),
        ) ==> q@ == spec_signed_query(secret@, "Invalid credentials."@)) && (r matches Err(
            LoginError::AuthError(_),
        )),
        store.spec_has_user(credentials.username@) && !phc_valid(
            store.spec_user_hash(credentials.username@),
        ) ==> r matches Err(LoginError::UnexpectedError),
{
    match validate_credentials(credentials, store) {
        Ok(user_id) => Ok(user_id),
        Err(e) => match e {
            AuthError::InvalidCredentials => {
                let message = e.message();
                let query_string = encoded_hmac_error(message.as_str(), secret);
                Err(LoginError::AuthError(query_string))
            },
            AuthError::UnexpectedError => Err(LoginError::UnexpectedError),
        },
    }
}

} // verus!
