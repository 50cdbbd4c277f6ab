//! Reusable, stateless validation primitives: length bounds, exact-length
//! digit checks, charset membership, character-category presence, and
//! numeric range checks.
//!
//! Every primitive is a pure, total function of its arguments; calling one
//! twice with identical inputs always yields identical results. Lengths are
//! measured in characters, not bytes, so the checks stay correct under
//! multi-byte encodings.

use crate::decimal::{dec_seq, push_decimal};
use crate::error::Error;
use vstd::prelude::*;

verus! {

/// `c` is an ASCII uppercase letter.
pub open spec fn is_uppercase_char(c: char) -> bool {
    'A' <= c && c <= 'Z'
}

/// `c` is an ASCII lowercase letter.
pub open spec fn is_lowercase_char(c: char) -> bool {
    'a' <= c && c <= 'z'
}

/// `c` is an ASCII decimal digit.
pub open spec fn is_digit_char(c: char) -> bool {
    '0' <= c && c <= '9'
}

/// Some character of `s` is an ASCII uppercase letter.
pub open spec fn has_uppercase(s: Seq<char>) -> bool {
    exists|i: int| 0 <= i < s.len() && is_uppercase_char(#[trigger] s[i])
}

/// Some character of `s` is an ASCII lowercase letter.
pub open spec fn has_lowercase(s: Seq<char>) -> bool {
    exists|i: int| 0 <= i < s.len() && is_lowercase_char(#[trigger] s[i])
}

/// Some character of `s` is an ASCII decimal digit.
pub open spec fn has_digit(s: Seq<char>) -> bool {
    exists|i: int| 0 <= i < s.len() && is_digit_char(#[trigger] s[i])
}

/// Some character of `s` occurs in `charset`.
pub open spec fn has_char_from(s: Seq<char>, charset: Seq<char>) -> bool {
    exists|i: int| 0 <= i < s.len() && charset.contains(#[trigger] s[i])
}

/// Every character of `s` is an ASCII decimal digit.
pub open spec fn all_digits(s: Seq<char>) -> bool {
    forall|i: int| 0 <= i < s.len() ==> is_digit_char(#[trigger] s[i])
}

/// Every character of `s` occurs in `charset`.
pub open spec fn all_from_charset(s: Seq<char>, charset: Seq<char>) -> bool {
    forall|i: int| 0 <= i < s.len() ==> charset.contains(#[trigger] s[i])
}

/// Whether `charset` holds the character `c`.
fn str_contains_char(charset: &str, c: char) -> (r: bool)
    ensures
        r == charset@.contains(c),
{
    let n = charset.unicode_len();
    let mut i: usize = 0;
    while i < n
        invariant
            i <= n,
            n == charset@.len(),
            forall|j: int| 0 <= j < i ==> charset@[j] != c,
        decreases n - i,
    {
        if charset.get_char(i) == c {
            return true;
        }
        i = i + 1;
    }
    false
}

/// Whether some character of `value` is an ASCII uppercase letter.
pub(crate) fn scan_has_uppercase(value: &str) -> (r: bool)
    ensures
        r == has_uppercase(value@),
{
    let n = value.unicode_len();
    let mut i: usize = 0;
    while i < n
        invariant
            i <= n,
            n == value@.len(),
            forall|j: int| 0 <= j < i ==> !is_uppercase_char(#[trigger] value@[j]),
        decreases n - i,
    {
        let c = value.get_char(i);
        if 'A' <= c && c <= 'Z' {
            return true;
        }
        i = i + 1;
    }
    false
}

/// Whether some character of `value` is an ASCII lowercase letter.
pub(crate) fn scan_has_lowercase(value: &str) -> (r: bool)
    ensures
        r == has_lowercase(value@),
{
    let n = value.unicode_len();
    let mut i: usize = 0;
    while i < n
        invariant
            i <= n,
            n == value@.len(),
            forall|j: int| 0 <= j < i ==> !is_lowercase_char(#[trigger] value@[j]),
        decreases n - i,
    {
        let c = value.get_char(i);
        if 'a' <= c && c <= 'z' {
            return true;
        }
        i = i + 1;
    }
    false
}

/// Whether some character of `value` is an ASCII decimal digit.
pub(crate) fn scan_has_digit(value: &str) -> (r: bool)
    ensures
        r == has_digit(value@),
{
    let n = value.unicode_len();
    let mut i: usize = 0;
    while i < n
        invariant
            i <= n,
            n == value@.len(),
            forall|j: int| 0 <= j < i ==> !is_digit_char(#[trigger] value@[j]),
        decreases n - i,
    {
        let c = value.get_char(i);
        if '0' <= c && c <= '9' {
            return true;
        }
        i = i + 1;
    }
    false
}

/// Whether some character of `value` occurs in `charset`.
fn scan_has_from(value: &str, charset: &str) -> (r: bool)
    ensures
        r == has_char_from(value@, charset@),
{
    let n = value.unicode_len();
    let mut i: usize = 0;
    while i < n
        invariant
            i <= n,
            n == value@.len(),
            forall|j: int| 0 <= j < i ==> !charset@.contains(#[trigger] value@[j]),
        decreases n - i,
    {
        let c = value.get_char(i);
        if str_contains_char(charset, c) {
            return true;
        }
        i = i + 1;
    }
    false
}

/// Whether every character of `value` is an ASCII decimal digit.
fn scan_all_digits(value: &str) -> (r: bool)
    ensures
        r == all_digits(value@),
{
    let n = value.unicode_len();
    let mut i: usize = 0;
    while i < n
        invariant
            i <= n,
            n == value@.len(),
            forall|j: int| 0 <= j < i ==> is_digit_char(#[trigger] value@[j]),
        decreases n - i,
    {
        let c = value.get_char(i);
        if !('0' <= c && c <= '9') {
            return false;
        }
        i = i + 1;
    }
    true
}

/// Whether every character of `value` occurs in `charset`.
fn scan_all_from(value: &str, charset: &str) -> (r: bool)
    ensures
        r == all_from_charset(value@, charset@),
{
    let n = value.unicode_len();
    let mut i: usize = 0;
    while i < n
        invariant
            i <= n,
            n == value@.len(),
            forall|j: int| 0 <= j < i ==> charset@.contains(#[trigger] value@[j]),
        decreases n - i,
    {
        let c = value.get_char(i);
        if !str_contains_char(charset, c) {
            return false;
        }
        i = i + 1;
    }
    true
}

/// Rejects a candidate whose character count lies outside `[min, max]`,
/// reporting the exact bounds and the actual count.
pub fn check_length(value: &str, min: usize, max: usize) -> (r: Result<(), Error>)
    ensures
        r is Ok <==> min <= value@.len() && value@.len() <= max,
        r matches Err(e) ==> e matches Error::InvalidLength { min: emin, max: emax, actual }
            && emin == min && emax == max && actual == value@.len(),
{
    let len = value.unicode_len();
    if len < min || len > max {
        Err(Error::InvalidLength { min, max, actual: len })
    } else {
        Ok(())
    }
}

/// Accepts exactly the strings of `expected_len` ASCII digits. A wrong
/// length and non-digit content share one error kind: the PIN format is a
/// single atomic contract.
pub fn contains_only_digits(value: &str, expected_len: usize) -> (r: Result<(), Error>)
    ensures
        r is Ok <==> value@.len() == expected_len && all_digits(value@),
        r matches Err(e) ==> e matches Error::PinFormat { len } && len == expected_len,
{
    let len = value.unicode_len();
    if len != expected_len {
        return Err(Error::PinFormat { len: expected_len });
    }
    if !scan_all_digits(value) {
        return Err(Error::PinFormat { len: expected_len });
    }
    Ok(())
}

/// Rejects a candidate holding any character absent from `charset`.
/// Membership is checked per character, not per substring.
pub fn contains_only_charset(value: &str, charset: &str) -> (r: Result<(), Error>)
    ensures
        r is Ok <==> all_from_charset(value@, charset@),
        r matches Err(e) ==> e matches Error::InvalidCharset(s) && s@ == charset@,
{
    if !scan_all_from(value, charset) {
        return Err(Error::InvalidCharset(String::from_str(charset)));
    }
    Ok(())
}

/// Checks the required character categories in a fixed order — uppercase,
/// then lowercase, then digit, then special — and reports the first unmet
/// requirement. The order is a behavioral contract: callers can predict
/// which single failure is reported when several categories are missing.
pub fn contains_categories(
    value: &str,
    require_upper: bool,
    require_lower: bool,
    require_digit: bool,
    require_special: Option<&str>,
) -> (r: Result<(), Error>)
    ensures
        r is Ok <==> {
            &&& require_upper ==> has_uppercase(value@)
            &&& require_lower ==> has_lowercase(value@)
            &&& require_digit ==> has_digit(value@)
            &&& require_special matches Some(cs) ==> has_char_from(value@, cs@)
        },
        r matches Err(e) ==> e matches Error::Validation(m) && m@ == (
            if require_upper && !has_uppercase(value@) {
                "missing uppercase character"@
            } else if require_lower && !has_lowercase(value@) {
                "missing lowercase character"@
            } else if require_digit && !has_digit(value@) {
                "missing digit"@
            } else {
                "missing special character"@
            }
        ),
{
    if require_upper && !scan_has_uppercase(value) {
        return Err(Error::Validation(String::from_str("missing uppercase character")));
    }
    if require_lower && !scan_has_lowercase(value) {
        return Err(Error::Validation(String::from_str("missing lowercase character")));
    }
    if require_digit && !scan_has_digit(value) {
        return Err(Error::Validation(String::from_str("missing digit")));
    }
    if let Some(specials) = require_special {
        if !scan_has_from(value, specials) {
            return Err(Error::Validation(String::from_str("missing special character")));
        }
    }
    Ok(())
}

/// The message reported when a numeric field lies outside its bounds.
pub open spec fn range_message(field: Seq<char>, min: nat, max: nat, value: nat) -> Seq<char> {
    field + " must be between "@ + dec_seq(min) + " and "@ + dec_seq(max) + ", got "@ + dec_seq(
        value,
    )
}

/// Rejects a numeric `value` outside `[min, max]`; the message names
/// `field` and carries the bounds and the actual value.
pub fn check_range(value: usize, min: usize, max: usize, field: &str) -> (r: Result<(), Error>)
    ensures
        r is Ok <==> min <= value && value <= max,
        r matches Err(e) ==> e matches Error::Validation(m)
            && m@ == range_message(field@, min as nat, max as nat, value as nat),
{
    if value < min || value > max {
        let mut m = String::from_str(field);
        m.append(" must be between ");
        push_decimal(&mut m, min as u128);
        m.append(" and ");
        push_decimal(&mut m, max as u128);
        m.append(", got ");
        push_decimal(&mut m, value as u128);
        proof {
            assert(m@ =~= range_message(field@, min as nat, max as nat, value as nat));
        }
        Err(Error::Validation(m))
    } else {
        Ok(())
    }
}

} // verus!
