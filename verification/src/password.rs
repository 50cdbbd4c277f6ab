//! General password policy: a length check followed by character-category
//! checks, composed with fail-fast short-circuiting.
//!
//! The first violation encountered in primitive-call order — length, then
//! uppercase, then lowercase, then digit, then special — is the one
//! reported; violations are never aggregated.

use crate::error::Error;
use crate::validation::{
    check_length, contains_categories, has_char_from, has_digit, has_lowercase, has_uppercase,
};
use vstd::prelude::*;

verus! {

/// Immutable configuration for the password policy, created by the caller
/// at configuration time and freely shareable across concurrent
/// validations.
#[derive(Debug, Clone)]
pub struct PasswordConfig {
    /// Smallest acceptable character count.
    pub min_length: usize,
    /// Largest acceptable character count.
    pub max_length: usize,
    /// Whether at least one ASCII uppercase letter is required.
    pub require_upper: bool,
    /// Whether at least one ASCII lowercase letter is required.
    pub require_lower: bool,
    /// Whether at least one ASCII decimal digit is required.
    pub require_digit: bool,
    /// When present, at least one character from this set is required.
    pub special_charset: Option<String>,
}

/// The outcome of the password policy, as a mathematical value: either
/// acceptance or the first violation in check order.
pub enum PasswordVerdict {
    Accepted,
    WrongLength,
    MissingUpper,
    MissingLower,
    MissingDigit,
    MissingSpecial,
}

/// The verdict of the password policy on candidate `s` under `cfg`: the
/// checks run in the fixed order length, uppercase, lowercase, digit,
/// special, and the first unmet requirement decides.
pub open spec fn password_verdict(s: Seq<char>, cfg: PasswordConfig) -> PasswordVerdict {
    if !(cfg.min_length <= s.len() && s.len() <= cfg.max_length) {
        PasswordVerdict::WrongLength
    } else if cfg.require_upper && !has_uppercase(s) {
        PasswordVerdict::MissingUpper
    } else if cfg.require_lower && !has_lowercase(s) {
        PasswordVerdict::MissingLower
    } else if cfg.require_digit && !has_digit(s) {
        PasswordVerdict::MissingDigit
    } else if cfg.special_charset matches Some(cs) && !has_char_from(s, cs@) {
        PasswordVerdict::MissingSpecial
    } else {
        PasswordVerdict::Accepted
    }
}

/// Validates a general password: `check_length` first (fail fast on gross
/// size violations before any category scan), then `contains_categories`.
/// The result is a pure function of `(value, cfg)`, so repeated calls on
/// the same pair yield identical outcomes.
pub fn validate_password(value: &str, cfg: &PasswordConfig) -> (r: Result<(), Error>)
    ensures
        r is Ok <==> password_verdict(value@, *cfg) is Accepted,
        r matches Err(e) ==> match password_verdict(value@, *cfg) {
            PasswordVerdict::Accepted => false,
            PasswordVerdict::WrongLength => e matches Error::InvalidLength {
                min,
                max,
                actual,
            } && min == cfg.min_length && max == cfg.max_length && actual == value@.len(),
            PasswordVerdict::MissingUpper => e matches Error::Validation(m) && m@
                == "missing uppercase character"@,
            PasswordVerdict::MissingLower => e matches Error::Validation(m) && m@
                == "missing lowercase character"@,
            PasswordVerdict::MissingDigit => e matches Error::Validation(m) && m@
                == "missing digit"@,
            PasswordVerdict::MissingSpecial => e matches Error::Validation(m) && m@
                == "missing special character"@,
        },
{
    match check_length(value, cfg.min_length, cfg.max_length) {
        Err(e) => Err(e),
        Ok(()) => {
            let special: Option<&str> = match &cfg.special_charset {
                Some(cs) => Some(cs.as_str()),
                None => None,
            };
            contains_categories(
                value,
                cfg.require_upper,
                cfg.require_lower,
                cfg.require_digit,
                special,
            )
        },
    }
}

/// Law: the password policy is a pure function of the candidate and the
/// configuration — running it twice on the same pair yields the same
/// verdict.
pub proof fn lemma_password_idempotent(
    s1: Seq<char>,
    cfg1: PasswordConfig,
    s2: Seq<char>,
    cfg2: PasswordConfig,
)
    requires
        s1 == s2,
        cfg1 == cfg2,
    ensures
        password_verdict(s1, cfg1) == password_verdict(s2, cfg2),
{
}

} // verus!
