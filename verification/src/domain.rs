//! Validated subscriber input: a subscriber's name and e-mail address
//! are parsed from untrusted form fields into types whose construction
//! is the only validation point.

use unicode_segmentation::UnicodeSegmentation;
use validator::ValidateEmail;
use vstd::prelude::*;

verus! {

/// Characters that a subscriber name may never contain.
pub open spec fn is_forbidden_char(c: char) -> bool {
    c == '/' || c == '(' || c == ')' || c == '"' || c == '<' || c == '>' || c == '\\' || c == '{'
        || c == '}'
}

pub open spec fn has_forbidden_char(s: Seq<char>) -> bool {
    exists|i: int| 0 <= i < s.len() && is_forbidden_char(#[trigger] s[i])
}

/// The characters `str::trim` removes: those with the Unicode
/// `White_Space` property.
pub open spec fn is_space_char(c: char) -> bool {
    let u = c as u32;
    (9 <= u <= 13) || u == 32 || u == 133 || u == 160 || u == 0x1680 || (0x2000 <= u <= 0x200A)
        || u == 0x2028 || u == 0x2029 || u == 0x202F || u == 0x205F || u == 0x3000
}

/// True when the string trims to nothing: every character is white space.
pub open spec fn all_space(s: Seq<char>) -> bool {
    forall|i: int| 0 <= i < s.len() ==> is_space_char(#[trigger] s[i])
}

/// How many extended grapheme clusters a string holds; what the
/// Unicode segmentation rules yield for it.
pub uninterp spec fn grapheme_count_of(s: Seq<char>) -> nat;

/// Relies on unicode-segmentation's `UnicodeSegmentation::graphemes`
/// with the extended grapheme cluster rules: counting the clusters it
/// yields depends on the characters of the string alone.
#[verifier::external_body]
fn grapheme_count(s: &str) -> (n: usize)
    ensures
        n == grapheme_count_of(s@),
{
    s.graphemes(true).count()
}

/// A name is acceptable when it does not trim to nothing, spans at
/// most 256 extended grapheme clusters, and avoids the forbidden
/// characters.
pub open spec fn subscriber_name_ok(s: Seq<char>) -> bool {
    !all_space(s) && grapheme_count_of(s) <= 256 && !has_forbidden_char(s)
}

/// The set of e-mail spellings the validation library accepts.
pub uninterp spec fn email_accepted(s: Seq<char>) -> bool;

/// Relies on validator's `ValidateEmail::validate_email` for a string:
/// acceptance depends on the characters alone; the empty string, a
/// string without `@`, and a string whose part before the last `@` is
/// absent are all rejected.
#[verifier::external_body]
fn validate_email_str(s: &str) -> (r: bool)
    ensures
        r == email_accepted(s@),
        s@.len() == 0 ==> !r,
        (forall|i: int| 0 <= i < s@.len() ==> s@[i] != '@') ==> !r,
        s@.len() > 0 && s@[0] == '@' ==> !r,
{
    s.validate_email()
}

/// A subscriber's display name, validated at construction.
pub struct SubscriberName {
    name: String,
}

impl View for SubscriberName {
    type V = Seq<char>;

    closed spec fn view(&self) -> Seq<char> {
        self.name@
    }
}

impl SubscriberName {
    /// Accepts exactly the acceptable names and never truncates: the
    /// parsed value carries the submitted characters unchanged.
    pub fn parse(s: String) -> (r: Result<SubscriberName, String>)
        ensures
            r is Ok <==> subscriber_name_ok(s@),
            r is Ok ==> r.unwrap()@ == s@,
    {
        let n = s.as_str().unicode_len();
        let mut i: usize = 0;
        let mut seen_non_space = false;
        let mut seen_forbidden = false;
        while i < n
            invariant
                n == s@.len(),
                i <= n,
                seen_non_space <==> exists|j: int| 0 <= j < i && !is_space_char(#[trigger] s@[j]),
                seen_forbidden <==> exists|j: int|
                    0 <= j < i && is_forbidden_char(#[trigger] s@[j]),
            decreases n - i,
        {
            let c = s.as_str().get_char(i);
            if !is_space(c) {
                seen_non_space = true;
            }
            if is_forbidden(c) {
                seen_forbidden = true;
            }
            i = i + 1;
        }
        let too_long = grapheme_count(s.as_str()) > 256;
        if !seen_non_space || too_long || seen_forbidden {
            Err(s.concat(" is not a valid subscriber name"))
        } else {
            Ok(SubscriberName { name: s })
        }
    }

    /// Read-only access to the validated name.
    pub fn inner_ref(&self) -> (r: &str)
        ensures
            r@ == self@,
    {
        self.name.as_str()
    }
}

fn is_space(c: char) -> (r: bool)
    ensures
        r == is_space_char(c),
{
    let u = c as u32;
    (9 <= u && u <= 13) || u == 32 || u == 133 || u == 160 || u == 0x1680 || (0x2000 <= u && u
        <= 0x200A) || u == 0x2028 || u == 0x2029 || u == 0x202F || u == 0x205F || u == 0x3000
}

fn is_forbidden(c: char) -> (r: bool)
    ensures
        r == is_forbidden_char(c),
{
    c == '/' || c == '(' || c == ')' || c == '"' || c == '<' || c == '>' || c == '\\' || c == '{'
        || c == '}'
}

/// A subscriber's e-mail address, validated at construction.
pub struct SubscriberEmail {
    email: String,
}

impl View for SubscriberEmail {
    type V = Seq<char>;

    closed spec fn view(&self) -> Seq<char> {
        self.email@
    }
}

impl SubscriberEmail {
    /// Accepts exactly the e-mail spellings the validation library
    /// accepts; in particular the empty string, a string without `@`,
    /// and a string with nothing before its last `@` are rejected.
    pub fn parse(s: String) -> (r: Result<SubscriberEmail, String>)
        ensures
            r is Ok <==> email_accepted(s@),
            r is Ok ==> r.unwrap()@ == s@,
            s@.len() == 0 ==> r is Err,
            (forall|i: int| 0 <= i < s@.len() ==> s@[i] != '@') ==> r is Err,
            s@.len() > 0 && s@[0] == '@' ==> r is Err,
    {
        if validate_email_str(s.as_str()) {
            Ok(SubscriberEmail { email: s })
        } else {
            Err(s.concat(" is not a valid subscriber email."))
        }
    }

    /// Read-only access to the validated address.
    pub fn as_ref(&self) -> (r: &str)
        ensures
            r@ == self@,
    {
        self.email.as_str()
    }
}

/// The validated pair a sign-up submission parses into.
pub struct NewSubscriber {
    pub email: SubscriberEmail,
    pub name: SubscriberName,
}

/// Any name containing a forbidden character is rejected.
pub proof fn lemma_forbidden_char_rejects_name(s: Seq<char>, i: int)
    requires
        0 <= i < s.len(),
        is_forbidden_char(s[i]),
    ensures
        !subscriber_name_ok(s),
{
}

/// Any name that trims to nothing is rejected; any name within the
/// grapheme budget, with some visible character and no forbidden one,
/// is accepted.
pub proof fn lemma_name_acceptance(s: Seq<char>)
    ensures
        all_space(s) ==> !subscriber_name_ok(s),
        (!all_space(s) && grapheme_count_of(s) <= 256 && !has_forbidden_char(s))
            ==> subscriber_name_ok(s),
{
}

} // verus!
