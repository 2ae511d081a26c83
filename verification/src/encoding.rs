//! Small text utilities shared by the rest of the crate: appending a
//! character to a `String`, decoding bytes as UTF-8, and a hexadecimal
//! codec with a full functional specification.

use vstd::prelude::*;
use vstd::utf8::{decode_utf8, valid_utf8};

verus! {

/// Relies on `String::push`: appends exactly one character at the end.
#[verifier::external_body]
pub fn push_char(s: &mut String, c: char)
    ensures
        final(s)@ == old(s)@.push(c),
{
    s.push(c);
}

/// Relies on `String::from_utf8`: succeeds exactly on valid UTF-8 input
/// and returns the string those bytes encode.
#[verifier::external_body]
pub fn bytes_to_string(v: Vec<u8>) -> (r: Option<String>)
    ensures
        r is Some <==> valid_utf8(v@),
        r is Some ==> r.unwrap()@ == decode_utf8(v@),
{
    String::from_utf8(v).ok()
}

/// Character-for-character string comparison.
pub fn str_eq(a: &str, b: &str) -> (r: bool)
    ensures
        r == (a@ == b@),
{
    let n = a.unicode_len();
    if n != b.unicode_len() {
        proof {
            assert(a@ != b@);
        }
        return false;
    }
    let mut i: usize = 0;
    while i < n
        invariant
            n == a@.len() == b@.len(),
            i <= n,
            forall|j: int| 0 <= j < i ==> a@[j] == b@[j],
        decreases n - i,
    {
        if a.get_char(i) != b.get_char(i) {
            return false;
        }
        i = i + 1;
    }
    proof {
        assert(a@ =~= b@);
    }
    true
}

/// The numeric value of a hexadecimal digit character, or `-1` when the
/// character is no hexadecimal digit. Both cases of letter are accepted,
/// as the usual decoders accept them.
pub open spec fn hex_digit_val(c: char) -> int {
    let u = c as u32;
    if 48 <= u <= 57 {
        u - 48
    } else if 97 <= u <= 102 {
        u - 87
    } else if 65 <= u <= 70 {
        u - 55
    } else {
        -1
    }
}

pub open spec fn is_hex_digit(c: char) -> bool {
    hex_digit_val(c) >= 0
}

/// The lower-case hexadecimal digit character for a value below 16.
pub open spec fn hex_digit_lower(n: int) -> char {
    if n < 10 {
        ((n + 48) as u32) as char
    } else {
        ((n + 87) as u32) as char
    }
}

/// Lower-case hexadecimal encoding of a byte sequence, two digits per
/// byte, high digit first.
pub open spec fn hex_chars_of(b: Seq<u8>) -> Seq<char>
    decreases b.len(),
{
    if b.len() == 0 {
        Seq::empty()
    } else {
        hex_chars_of(b.drop_last()).push(hex_digit_lower(b.last() as int / 16)).push(
            hex_digit_lower(b.last() as int % 16),
        )
    }
}

/// The bytes a character sequence denotes in hexadecimal, if it is a
/// well-formed hexadecimal spelling: even length, every character a
/// digit of either case.
pub open spec fn hex_decoded(s: Seq<char>) -> Option<Seq<u8>>
    decreases s.len(),
{
    if s.len() % 2 != 0 {
        None
    } else if s.len() == 0 {
        Some(Seq::empty())
    } else {
        let hi = hex_digit_val(s[s.len() - 2]);
        let lo = hex_digit_val(s[s.len() - 1]);
        if hi < 0 || lo < 0 {
            None
        } else {
            match hex_decoded(s.take(s.len() - 2)) {
                None => None,
                Some(p) => Some(p.push((hi * 16 + lo) as u8)),
            }
        }
    }
}

/// Decoding inverts encoding: the canonical lower-case spelling of any
/// byte sequence decodes back to it.
pub proof fn lemma_hex_round_trip(b: Seq<u8>)
    ensures
        hex_decoded(hex_chars_of(b)) == Some(b),
    decreases b.len(),
{
    if b.len() == 0 {
        assert(hex_chars_of(b) =~= Seq::<char>::empty());
    } else {
        lemma_hex_round_trip(b.drop_last());
        let s = hex_chars_of(b);
        assert(s.len() == hex_chars_of(b.drop_last()).len() + 2);
        lemma_hex_chars_len(b.drop_last());
        lemma_hex_chars_len(b);
        assert(s.take(s.len() - 2) =~= hex_chars_of(b.drop_last()));
        assert(hex_digit_val(hex_digit_lower(b.last() as int / 16)) == b.last() as int / 16);
        assert(hex_digit_val(hex_digit_lower(b.last() as int % 16)) == b.last() as int % 16);
        assert(hex_decoded(s).unwrap() =~= b);
    }
}

/// An encoding is twice as long as what it encodes.
pub proof fn lemma_hex_chars_len(b: Seq<u8>)
    ensures
        hex_chars_of(b).len() == 2 * b.len(),
    decreases b.len(),
{
    if b.len() > 0 {
        lemma_hex_chars_len(b.drop_last());
    }
}

/// Every character of a decodable spelling is a hexadecimal digit.
pub proof fn lemma_hex_decoded_digits(s: Seq<char>)
    requires
        hex_decoded(s) is Some,
    ensures
        forall|i: int| 0 <= i < s.len() ==> is_hex_digit(#[trigger] s[i]),
    decreases s.len(),
{
    if s.len() >= 2 {
        lemma_hex_decoded_digits(s.take(s.len() - 2));
        assert forall|i: int| 0 <= i < s.len() implies is_hex_digit(#[trigger] s[i]) by {
            if i < s.len() - 2 {
                assert(s.take(s.len() - 2)[i] == s[i]);
            }
        }
    }
}

/// A spelling decodes to given bytes exactly when each of its
/// characters is a digit of the corresponding nibble: decodable
/// spellings of the same bytes differ at most in letter case.
pub proof fn lemma_hex_decoded_determines_digits(s: Seq<char>, h: Seq<u8>)
    requires
        hex_decoded(s) == Some(h),
    ensures
        s.len() == 2 * h.len(),
        forall|i: int|
            0 <= i < h.len() ==> hex_digit_val(s[2 * i]) == #[trigger] h[i] as int / 16 && hex_digit_val(
                s[2 * i + 1],
            ) == h[i] as int % 16,
    decreases s.len(),
{
    if s.len() >= 2 {
        let p = hex_decoded(s.take(s.len() - 2)).unwrap();
        lemma_hex_decoded_determines_digits(s.take(s.len() - 2), p);
        assert(h.drop_last() =~= p);
        assert forall|i: int|
            0 <= i < h.len() implies hex_digit_val(s[2 * i]) == #[trigger] h[i] as int / 16
            && hex_digit_val(s[2 * i + 1]) == h[i] as int % 16 by {
            if i < h.len() - 1 {
                assert(s.take(s.len() - 2)[2 * i] == s[2 * i]);
                assert(s.take(s.len() - 2)[2 * i + 1] == s[2 * i + 1]);
                assert(p[i] == h[i]);
            } else {
                let hi = hex_digit_val(s[s.len() - 2]);
                let lo = hex_digit_val(s[s.len() - 1]);
                assert(h.last() == (hi * 16 + lo) as u8);
                assert(0 <= hi < 16 && 0 <= lo < 16);
                assert(h.last() as int / 16 == hi && h.last() as int % 16 == lo);
            }
        }
    }
}

/// Lower-case hexadecimal encoding of a byte slice.
pub fn hex_encode(bytes: &[u8]) -> (s: String)
    ensures
        s@ == hex_chars_of(bytes@),
{
    let mut s = String::new();
    let mut i: usize = 0;
    while i < bytes.len()
        invariant
            i <= bytes@.len(),
            s@ == hex_chars_of(bytes@.take(i as int)),
        decreases bytes@.len() - i,
    {
        let b = bytes[i];
        let hi: u8 = b / 16;
        let lo: u8 = b % 16;
        push_char(&mut s, hex_digit_char(hi));
        push_char(&mut s, hex_digit_char(lo));
        proof {
            assert(bytes@.take(i + 1).drop_last() =~= bytes@.take(i as int));
            assert(bytes@.take(i + 1).last() == b);
        }
        i = i + 1;
    }
    proof {
        assert(bytes@.take(bytes@.len() as int) =~= bytes@);
    }
    s
}

/// The lower-case digit character for a nibble.
fn hex_digit_char(n: u8) -> (c: char)
    requires
        n < 16,
    ensures
        c == hex_digit_lower(n as int),
{
    if n < 10 {
        (n + 48) as char
    } else {
        (n + 87) as char
    }
}

/// Decodes a hexadecimal spelling, accepting either letter case;
/// returns `None` on odd length or any non-digit character.
pub fn hex_decode(s: &str) -> (r: Option<Vec<u8>>)
    ensures
        match r {
            Some(v) => hex_decoded(s@) == Some(v@),
            None => hex_decoded(s@) is None,
        },
{
    let n = s.unicode_len();
    if n % 2 != 0 {
        return None;
    }
    let mut out: Vec<u8> = Vec::new();
    let mut i: usize = 0;
    while i < n
        invariant
            n == s@.len(),
            n % 2 == 0,
            i <= n,
            i % 2 == 0,
            hex_decoded(s@.take(i as int)) == Some(out@),
        decreases n - i,
    {
        let c_hi = s.get_char(i);
        let c_lo = s.get_char(i + 1);
        let hi = hex_digit_value(c_hi);
        let lo = hex_digit_value(c_lo);
        if hi >= 16 || lo >= 16 {
            proof {
                if hex_decoded(s@) is Some {
                    lemma_hex_decoded_digits(s@);
                }
            }
            return None;
        }
        out.push(hi * 16 + lo);
        proof {
            assert(s@.take(i + 2).take(i as int) =~= s@.take(i as int));
            assert(s@.take(i + 2)[i + 1] == s@[i + 1]);
            assert(s@.take(i + 2)[i as int] == s@[i as int]);
        }
        i = i + 2;
    }
    proof {
        assert(s@.take(n as int) =~= s@);
    }
    Some(out)
}

/// The value of a digit character, or 255 when it is no digit.
fn hex_digit_value(c: char) -> (v: u8)
    ensures
        is_hex_digit(c) ==> v == hex_digit_val(c),
        !is_hex_digit(c) ==> v == 255,
{
    let u = c as u32;
    if 48 <= u && u <= 57 {
        (u - 48) as u8
    } else if 97 <= u && u <= 102 {
        (u - 87) as u8
    } else if 65 <= u && u <= 70 {
        (u - 55) as u8
    } else {
        255
    }
}

} // verus!
