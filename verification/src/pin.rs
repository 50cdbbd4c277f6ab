//! PIN policy: a fixed-length, numeric-only validator with optional
//! rejection of weak patterns (monotonic digit runs and fully repeated
//! digits).
//!
//! The format check — exact length and digits only — runs first and is
//! absolute; the weak-pattern check runs only after the format check
//! passes.

use crate::error::Error;
use crate::validation::{all_digits, contains_only_digits, is_digit_char};
use vstd::prelude::*;

verus! {

/// Immutable configuration for the PIN policy.
#[derive(Debug, Clone)]
pub struct PinConfig {
    /// The exact number of digits a PIN must have.
    pub exact_length: usize,
    /// Whether monotonic sequences and fully repeated digits are rejected.
    pub reject_weak_patterns: bool,
}

/// The numeric value of an ASCII digit character.
pub open spec fn digit_value(c: char) -> int {
    c as int - '0' as int
}

/// Every digit of `s` is one more than its predecessor, as in `"1234"`.
pub open spec fn is_ascending(s: Seq<char>) -> bool {
    forall|i: int| 1 <= i < s.len() ==> digit_value(#[trigger] s[i]) == digit_value(s[i - 1]) + 1
}

/// Every digit of `s` is one less than its predecessor, as in `"4321"`.
pub open spec fn is_descending(s: Seq<char>) -> bool {
    forall|i: int| 1 <= i < s.len() ==> digit_value(#[trigger] s[i]) == digit_value(s[i - 1]) - 1
}

/// All characters of `s` are equal, as in `"1111"`.
pub open spec fn is_all_same(s: Seq<char>) -> bool {
    forall|i: int| 0 <= i < s.len() ==> #[trigger] s[i] == s[0]
}

/// A weak PIN pattern: a monotonic digit sequence (ascending or descending
/// by one) or a fully repeated digit. A single digit carries no pattern.
pub open spec fn is_weak_pin(s: Seq<char>) -> bool {
    s.len() >= 2 && (is_ascending(s) || is_descending(s) || is_all_same(s))
}

/// Whether the digits of `value` form a weak pattern.
fn scan_weak_pin(value: &str) -> (r: bool)
    ensures
        r == is_weak_pin(value@),
{
    let n = value.unicode_len();
    if n < 2 {
        return false;
    }
    let mut ascending = true;
    let mut descending = true;
    let mut all_same = true;
    let mut prev = value.get_char(0);
    let first = prev;
    let mut i: usize = 1;
    while i < n
        invariant
            1 <= i <= n,
            n == value@.len(),
            n >= 2,
            first == value@[0],
            prev == value@[i - 1],
            ascending == (forall|j: int|
                1 <= j < i ==> digit_value(#[trigger] value@[j]) == digit_value(value@[j - 1]) + 1),
            descending == (forall|j: int|
                1 <= j < i ==> digit_value(#[trigger] value@[j]) == digit_value(value@[j - 1]) - 1),
            all_same == (forall|j: int| 0 <= j < i ==> #[trigger] value@[j] == value@[0]),
        decreases n - i,
    {
        let c = value.get_char(i);
        let pv = prev as u32;
        let cv = c as u32;
        if !(cv == pv + 1) {
            ascending = false;
        }
        if !(cv + 1 == pv) {
            descending = false;
        }
        if c != first {
            all_same = false;
        }
        prev = c;
        i = i + 1;
    }
    ascending || descending || all_same
}

/// The outcome of the PIN policy, as a mathematical value.
pub enum PinVerdict {
    Accepted,
    BadFormat,
    WeakPattern,
}

/// The verdict of the PIN policy on candidate `s` under `cfg`: the format
/// check decides first; the weak-pattern check applies only when enabled
/// and only to well-formed PINs.
pub open spec fn pin_verdict(s: Seq<char>, cfg: PinConfig) -> PinVerdict {
    if !(s.len() == cfg.exact_length && all_digits(s)) {
        PinVerdict::BadFormat
    } else if cfg.reject_weak_patterns && is_weak_pin(s) {
        PinVerdict::WeakPattern
    } else {
        PinVerdict::Accepted
    }
}

/// Validates a numeric PIN: `contains_only_digits` first (wrong length and
/// non-digit content fail identically), then, when enabled, rejection of
/// monotonic sequences and fully repeated digits. The result is a pure
/// function of `(value, cfg)`.
pub fn validate_pin(value: &str, cfg: &PinConfig) -> (r: Result<(), Error>)
    ensures
        r is Ok <==> pin_verdict(value@, *cfg) is Accepted,
        r matches Err(e) ==> match pin_verdict(value@, *cfg) {
            PinVerdict::Accepted => false,
            PinVerdict::BadFormat => e matches Error::PinFormat { len } && len
                == cfg.exact_length,
            PinVerdict::WeakPattern => e matches Error::Validation(m) && m@
                == "weak PIN pattern"@,
        },
{
    match contains_only_digits(value, cfg.exact_length) {
        Err(e) => Err(e),
        Ok(()) => {
            if cfg.reject_weak_patterns && scan_weak_pin(value) {
                Err(Error::Validation(String::from_str("weak PIN pattern")))
            } else {
                Ok(())
            }
        },
    }
}

/// Law: the PIN policy is a pure function of the candidate and the
/// configuration — running it twice on the same pair yields the same
/// verdict.
pub proof fn lemma_pin_idempotent(s1: Seq<char>, cfg1: PinConfig, s2: Seq<char>, cfg2: PinConfig)
    requires
        s1 == s2,
        cfg1 == cfg2,
    ensures
        pin_verdict(s1, cfg1) == pin_verdict(s2, cfg2),
{
}

} // verus!
