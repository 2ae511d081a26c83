//! Credential verification: a username/password pair is checked
//! against the stored password hashes, with a fixed dummy hash taking
//! the place of a missing record so that the expensive hash check runs
//! whether or not the username exists. Also the decoder for HTTP
//! Basic-Auth header values.

use crate::encoding::bytes_to_string;
use crate::store::{lookup_user, Store};
use argon2::{Argon2, PasswordHash, PasswordVerifier};
use base64::Engine;
use vstd::prelude::*;
use vstd::utf8::{decode_utf8, valid_utf8};

verus! {

/// How credential verification fails: a bad username and a bad
/// password are indistinguishable to the caller.
#[derive(Debug)]
pub enum AuthError {
    InvalidCredentials,
    UnexpectedError,
}

impl AuthError {
    /// The user-facing text for this failure; safe to show, since it
    /// never names the stored record.
    pub fn message(&self) -> (m: String)
        ensures
            self is InvalidCredentials ==> m@ == "Invalid credentials."@,
            self is UnexpectedError ==> m@ == "Something went wrong."@,
    {
        match self {
            AuthError::InvalidCredentials => String::from_str("Invalid credentials."),
            AuthError::UnexpectedError => String::from_str("Something went wrong."),
        }
    }
}

/// A transient username/password pair; it lives only for the duration
/// of one verification call and is never persisted.
pub struct Credentials {
    pub username: String,
    pub password: String,
}

/// Whether a string parses as a PHC-format password hash.
pub uninterp spec fn phc_valid(hash: Seq<char>) -> bool;

/// Whether a candidate password matches a PHC-format hash.
pub uninterp spec fn password_matches(hash: Seq<char>, password: Seq<char>) -> bool;

enum HashCheck {
    InvalidHash,
    Match,
    NoMatch,
}

/// Relies on argon2's `PasswordHash::new` (PHC-format parsing) and
/// `Argon2::verify_password` under the default context: whether the
/// hash parses, and whether the candidate password matches it, depend
/// on the two strings alone.
#[verifier::external_body]
fn check_password_hash(expected_password_hash: &str, password_candidate: &str) -> (r: HashCheck)
    ensures
        r is InvalidHash <==> !phc_valid(expected_password_hash@),
        phc_valid(expected_password_hash@) ==> ((r is Match) == password_matches(
            expected_password_hash@,
            password_candidate@,
        )),
{
    let parsed = match PasswordHash::new(expected_password_hash) {
        Ok(p) => p,
        Err(_) => return HashCheck::InvalidHash,
    };
    match Argon2::default().verify_password(password_candidate.as_bytes(), &parsed) {
        Ok(()) => HashCheck::Match,
        Err(_) => HashCheck::NoMatch,
    }
}

/// A syntactically valid hash of no password anyone knows; verifying
/// against it burns the same work as a real check.
pub fn dummy_password_hash() -> &'static str {
    "$argon2id$v=19$m=15000,t=2,p=1$gZiV/M1gPc22ElAH/Jh1Hw$CWOrkoo7oJBQ/iyh7uJ0LO2aLEfrHwTWllSAxT0zRno"
}

/// Checks one candidate password against one stored hash: a hash that
/// does not parse is an unexpected error, a parse with a mismatch is an
/// authentication failure.
pub fn verify_password_hash(expected_password_hash: &str, password_candidate: &str) -> (r: Result<
    (),
    AuthError,
>)
    ensures
        r is Ok <==> phc_valid(expected_password_hash@) && password_matches(
            expected_password_hash@,
            password_candidate@,
        ),
        r matches Err(AuthError::UnexpectedError) <==> !phc_valid(expected_password_hash@),
        r matches Err(AuthError::InvalidCredentials) <==> phc_valid(expected_password_hash@)
            && !password_matches(expected_password_hash@, password_candidate@),
{
    match check_password_hash(expected_password_hash, password_candidate) {
        HashCheck::InvalidHash => Err(AuthError::UnexpectedError),
        HashCheck::Match => Ok(()),
        HashCheck::NoMatch => Err(AuthError::InvalidCredentials),
    }
}

/// Verifies a credential pair against the store. Exactly one hash
/// verification runs on every path: when the username is unknown the
/// dummy hash is checked and the result discarded, so unknown-user and
/// wrong-password calls cost the same hashing work, and a match
/// against the dummy hash never authenticates anyone.
pub fn validate_credentials(credentials: &Credentials, store: &Store) -> (r: Result<
    u128,
    AuthError,
>)
    requires
        store.wf(),
    ensures
        !store.spec_has_user(credentials.username@) ==> r matches Err(
            AuthError::InvalidCredentials,
        ),
        store.spec_has_user(credentials.username@) && !phc_valid(
            store.spec_user_hash(credentials.username@),
        ) ==> r matches Err(AuthError::UnexpectedError),
        store.spec_has_user(credentials.username@) && phc_valid(
            store.spec_user_hash(credentials.username@),
        ) && password_matches(
            store.spec_user_hash(credentials.username@),
            credentials.password@,
        ) ==> r == Ok::<u128, AuthError>(store.spec_user_id(credentials.username@)),
        store.spec_has_user(credentials.username@) && phc_valid(
            store.spec_user_hash(credentials.username@),
        ) && !password_matches(
            store.spec_user_hash(credentials.username@),
            credentials.password@,
        ) ==> r matches Err(AuthError::InvalidCredentials),
{
    let looked_up = lookup_user(store, credentials.username.as_str());
    let mut user_id: Option<u128> = None;
    let mut expected_password_hash = String::from_str(dummy_password_hash());
    match looked_up {
        Some((stored_user_id, stored_expected_password_hash)) => {
            user_id = Some(stored_user_id);
            expected_password_hash = stored_expected_password_hash;
        },
        None => {},
    }
    let outcome = check_password_hash(
        expected_password_hash.as_str(),
        credentials.password.as_str(),
    );
    match user_id {
        // The check above already ran; its outcome must not matter,
        // since a dummy-hash match authenticates nobody.
        None => Err(AuthError::InvalidCredentials),
        Some(id) => match outcome {
            HashCheck::InvalidHash => Err(AuthError::UnexpectedError),
            HashCheck::Match => Ok(id),
            HashCheck::NoMatch => Err(AuthError::InvalidCredentials),
        },
    }
}

/// What the base64 standard-alphabet decoder yields for given input
/// bytes.
pub uninterp spec fn base64_std_decoded(s: Seq<u8>) -> Option<Seq<u8>>;

/// Relies on base64's `general_purpose::STANDARD` engine `decode`: the
/// result depends on the input bytes alone.
#[verifier::external_body]
fn base64_decode_std(input: &[u8]) -> (r: Option<Vec<u8>>)
    ensures
        r is Some <==> base64_std_decoded(input@) is Some,
        r is Some ==> r.unwrap()@ == base64_std_decoded(input@).unwrap(),
{
    base64::engine::general_purpose::STANDARD.decode(input).ok()
}

/// The bytes spelling `"Basic "`.
pub open spec fn basic_prefix() -> Seq<u8> {
    seq![66u8, 97u8, 115u8, 105u8, 99u8, 32u8]
}

/// The position of the first `':'`, or `-1` when there is none.
pub open spec fn first_colon(s: Seq<char>) -> int
    decreases s.len(),
{
    if s.len() == 0 {
        -1
    } else if s[0] == ':' {
        0
    } else {
        let r = first_colon(s.drop_first());
        if r < 0 {
            -1
        } else {
            r + 1
        }
    }
}

proof fn lemma_first_colon_at(s: Seq<char>, i: int)
    requires
        0 <= i < s.len(),
        s[i] == ':',
        forall|j: int| 0 <= j < i ==> s[j] != ':',
    ensures
        first_colon(s) == i,
    decreases i,
{
    if i > 0 {
        lemma_first_colon_at(s.drop_first(), i - 1);
    }
}

proof fn lemma_no_colon(s: Seq<char>)
    requires
        forall|j: int| 0 <= j < s.len() ==> s[j] != ':',
    ensures
        first_colon(s) == -1,
    decreases s.len(),
{
    if s.len() > 0 {
        lemma_no_colon(s.drop_first());
    }
}

/// The credentials an `Authorization` header value denotes under the
/// Basic scheme, if it is well-formed: the `Basic ` prefix, then
/// base64 of valid UTF-8 of `username:password`, split at the first
/// colon.
pub open spec fn spec_basic_credentials(h: Seq<u8>) -> Option<(Seq<char>, Seq<char>)> {
    if h.len() < 6 || h.subrange(0, 6) != basic_prefix() {
        None
    } else {
        match base64_std_decoded(h.skip(6)) {
            None => None,
            Some(bytes) => if !valid_utf8(bytes) {
                None
            } else {
                let chars = decode_utf8(bytes);
                let k = first_colon(chars);
                if k < 0 {
                    None
                } else {
                    Some((chars.take(k), chars.skip(k + 1)))
                }
            },
        }
    }
}

/// Decodes an `Authorization` header value into credentials. Fails on
/// a missing or different scheme, undecodable base64, bytes that are
/// not UTF-8, and a payload without a colon, exactly as
/// [`spec_basic_credentials`] says.
pub fn basic_authentication(header: &[u8]) -> (r: Result<Credentials, String>)
    ensures
        r is Ok <==> spec_basic_credentials(header@) is Some,
        r is Ok ==> ({
            let (u, p) = spec_basic_credentials(header@).unwrap();
            r.unwrap().username@ == u && r.unwrap().password@ == p
        }),
{
    if header.len() < 6 {
        return Err(String::from_str("The authorization scheme was not 'Basic'."));
    }
    if !(header[0] == 66 && header[1] == 97 && header[2] == 115 && header[3] == 105 && header[4]
        == 99 && header[5] == 32) {
        proof {
            assert(header@.subrange(0, 6) != basic_prefix());
        }
        return Err(String::from_str("The authorization scheme was not 'Basic'."));
    }
    proof {
        assert(header@.subrange(0, 6) =~= basic_prefix());
    }
    let encoded = &header[6..header.len()];
    proof {
        assert(encoded@ == header@.skip(6));
    }
    let decoded_bytes = match base64_decode_std(encoded) {
        Some(b) => b,
        None => {
            return Err(String::from_str("Failed to base64-decode 'Basic' credentials."));
        },
    };
    let decoded = match bytes_to_string(decoded_bytes) {
        Some(s) => s,
        None => {
            return Err(
                String::from_str("The decoded credential string is not valid UTF8."),
            );
        },
    };
    let ghost payload = decoded@;
    proof {
        assert(spec_basic_credentials(header@) == (if first_colon(payload) < 0 {
            None::<(Seq<char>, Seq<char>)>
        } else {
            Some((payload.take(first_colon(payload)), payload.skip(first_colon(payload) + 1)))
        }));
    }
    let n = decoded.as_str().unicode_len();
    let mut i: usize = 0;
    while i < n
        invariant
            n == decoded@.len(),
            decoded@ == payload,
            spec_basic_credentials(header@) == (if first_colon(payload) < 0 {
                None::<(Seq<char>, Seq<char>)>
            } else {
                Some(
                    (
                        payload.take(first_colon(payload)),
                        payload.skip(first_colon(payload) + 1),
                    ),
                )
            }),
            i <= n,
            forall|j: int| 0 <= j < i ==> decoded@[j] != ':',
        decreases n - i,
    {
        if decoded.as_str().get_char(i) == ':' {
            proof {
                lemma_first_colon_at(decoded@, i as int);
            }
            let username = decoded.as_str().substring_char(0, i);
            let password = decoded.as_str().substring_char(i + 1, n);
            return Ok(
                Credentials {
                    username: String::from_str(username),
                    password: String::from_str(password),
                },
            );
        }
        i = i + 1;
    }
    proof {
        lemma_no_colon(decoded@);
    }
    Err(String::from_str("A password must be provided in 'Basic' auth."))
}

} // verus!
