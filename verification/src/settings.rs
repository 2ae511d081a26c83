//! Runtime environment selection and the database settings that the
//! verified core cares about.

use crate::encoding::str_eq;
use vstd::prelude::*;

verus! {

/// Which configuration profile the application runs under.
pub enum Environment {
    Local,
    Production,
}

impl Environment {
    /// The canonical lower-case name of the environment.
    pub fn as_str(&self) -> (r: &'static str)
        ensures
            self is Local ==> r@ == "local"@,
            self is Production ==> r@ == "production"@,
    {
        match self {
            Environment::Local => "local",
            Environment::Production => "production",
        }
    }
}

/// What lower-casing yields for a string, by the Unicode rules.
pub uninterp spec fn lower_of(s: Seq<char>) -> Seq<char>;

/// Relies on `str::to_lowercase`: the result depends on the characters
/// alone.
#[verifier::external_body]
fn to_lowercase(s: &str) -> (r: String)
    ensures
        r@ == lower_of(s@),
{
    s.to_lowercase()
}

impl Environment {
    /// Reads an environment name, case-insensitively; anything but the
    /// two known names is refused.
    pub fn try_from(s: String) -> (r: Result<Environment, String>)
        ensures
            r matches Ok(Environment::Local) <==> lower_of(s@) == "local"@,
            r matches Ok(Environment::Production) <==> lower_of(s@) == "production"@,
            r is Err <==> lower_of(s@) != "local"@ && lower_of(s@) != "production"@,
    {
        proof {
            // The two names differ, which the literals must show.
            reveal_strlit("local");
            reveal_strlit("production");
            assert("local"@.len() == 5);
            assert("production"@.len() == 10);
            assert("local"@ != "production"@);
        }
        let lowered = to_lowercase(s.as_str());
        if str_eq(lowered.as_str(), "local") {
            Ok(Environment::Local)
        } else if str_eq(lowered.as_str(), "production") {
            Ok(Environment::Production)
        } else {
            Err(
                s.concat(
                    " is not a supported environment. Use either `local` or `production`.",
                ),
            )
        }
    }
}

/// Connection settings for the relational store; the store is addressed
/// by name alone.
pub struct DatabaseSettings {
    pub name: String,
}

impl DatabaseSettings {
    /// The connection string the store is reached under.
    pub fn connection_string(&self) -> (r: String)
        ensures
            r@ == "sqlite://"@ + self.name@,
    {
        String::from_str("sqlite://").concat(self.name.as_str())
    }
}

} // verus!
