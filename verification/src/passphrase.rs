//! Passphrase policy and entropy estimator.
//!
//! A candidate first passes a structural length check, then receives an
//! estimated bit-strength: the effective alphabet is the union of the
//! character classes actually used (lowercase, uppercase, digit, other),
//! and the raw estimate is `length * log2(alphabet size)`, kept in
//! centibits (hundredths of a bit) so the whole model stays in integer
//! arithmetic. A detected degenerate pattern — a run of three identical
//! characters or a fully repeated short block — divides the raw estimate
//! by a configurable penalty divisor (halving by default). The estimator
//! is deterministic, single-pass, and monotonic in alphabet size and
//! length.

use crate::decimal::{dec_seq, push_decimal};
use crate::error::Error;
use crate::validation::{
    check_length, has_digit, has_lowercase, has_uppercase, is_digit_char, is_lowercase_char,
    is_uppercase_char,
};
use vstd::prelude::*;

verus! {

/// Number of ASCII lowercase letters.
pub const LOWER_CLASS_SIZE: u64 = 26;

/// Number of ASCII uppercase letters.
pub const UPPER_CLASS_SIZE: u64 = 26;

/// Number of ASCII decimal digits.
pub const DIGIT_CLASS_SIZE: u64 = 10;

/// Nominal size of the symbol/other class (the printable ASCII symbols).
pub const OTHER_CLASS_SIZE: u64 = 33;

/// `c` belongs to none of the letter or digit classes.
pub open spec fn is_other_char(c: char) -> bool {
    !is_uppercase_char(c) && !is_lowercase_char(c) && !is_digit_char(c)
}

/// Some character of `s` is outside the letter and digit classes.
pub open spec fn has_other(s: Seq<char>) -> bool {
    exists|i: int| 0 <= i < s.len() && is_other_char(#[trigger] s[i])
}

/// How many character classes `s` draws from.
pub open spec fn class_count(s: Seq<char>) -> nat {
    (if has_lowercase(s) { 1nat } else { 0nat }) + (if has_uppercase(s) { 1nat } else { 0nat })
        + (if has_digit(s) { 1nat } else { 0nat }) + (if has_other(s) { 1nat } else { 0nat })
}

/// The effective alphabet size of `s`: each class present contributes its
/// nominal size to the union.
pub open spec fn alphabet_size(s: Seq<char>) -> nat {
    (if has_lowercase(s) { LOWER_CLASS_SIZE as nat } else { 0nat })
        + (if has_uppercase(s) { UPPER_CLASS_SIZE as nat } else { 0nat })
        + (if has_digit(s) { DIGIT_CLASS_SIZE as nat } else { 0nat })
        + (if has_other(s) { OTHER_CLASS_SIZE as nat } else { 0nat })
}

/// `100 * log2(n)`, rounded down, as a monotone step function exact on
/// every alphabet size the class model can produce.
pub open spec fn log2_centibits(n: nat) -> nat {
    if n >= 95 {
        656
    } else if n >= 85 {
        640
    } else if n >= 78 {
        628
    } else if n >= 69 {
        610
    } else if n >= 62 {
        595
    } else if n >= 59 {
        588
    } else if n >= 52 {
        570
    } else if n >= 43 {
        542
    } else if n >= 36 {
        516
    } else if n >= 33 {
        504
    } else if n >= 26 {
        470
    } else if n >= 10 {
        332
    } else {
        0
    }
}

/// The raw (pre-penalty) entropy estimate of `s`, in centibits.
pub open spec fn raw_entropy_centibits(s: Seq<char>) -> nat {
    s.len() * log2_centibits(alphabet_size(s))
}

/// `s` holds a run of at least three identical consecutive characters.
pub open spec fn has_run_of_three(s: Seq<char>) -> bool {
    exists|i: int| 0 <= i && i + 2 < s.len() && #[trigger] s[i] == s[i + 1] && s[i + 1] == s[i + 2]
}

/// `s` is its first `p` characters repeated over its whole length.
pub open spec fn repeats_with_period(s: Seq<char>, p: int) -> bool {
    forall|i: int| p <= i < s.len() ==> #[trigger] s[i] == s[i - p]
}

/// `s` is a short block (at most four characters) repeated at least twice.
pub open spec fn is_repeated_block(s: Seq<char>) -> bool {
    exists|p: int|
        1 <= p <= 4 && p < s.len() && s.len() % (p as nat) == 0 && #[trigger] repeats_with_period(
            s,
            p,
        )
}

/// A degenerate, entropy-reducing structural pattern.
pub open spec fn has_degenerate_pattern(s: Seq<char>) -> bool {
    has_run_of_three(s) || is_repeated_block(s)
}

/// The estimated entropy of `s` in centibits: the raw class-based estimate,
/// divided by `penalty_divisor` when a degenerate pattern is present.
pub open spec fn entropy_centibits(s: Seq<char>, penalty_divisor: nat) -> nat
    recommends
        penalty_divisor >= 1,
{
    if has_degenerate_pattern(s) {
        raw_entropy_centibits(s) / penalty_divisor
    } else {
        raw_entropy_centibits(s)
    }
}

/// Whether some character of `value` lies outside the letter and digit
/// classes.
fn scan_has_other(value: &str) -> (r: bool)
    ensures
        r == has_other(value@),
{
    let n = value.unicode_len();
    let mut i: usize = 0;
    while i < n
        invariant
            i <= n,
            n == value@.len(),
            forall|j: int| 0 <= j < i ==> !is_other_char(#[trigger] value@[j]),
        decreases n - i,
    {
        let c = value.get_char(i);
        let upper = 'A' <= c && c <= 'Z';
        let lower = 'a' <= c && c <= 'z';
        let digit = '0' <= c && c <= '9';
        if !upper && !lower && !digit {
            return true;
        }
        i = i + 1;
    }
    false
}

/// Whether `value` holds three identical consecutive characters.
fn scan_run_of_three(value: &str) -> (r: bool)
    ensures
        r == has_run_of_three(value@),
{
    let n = value.unicode_len();
    if n < 3 {
        return false;
    }
    let mut p2 = value.get_char(0);
    let mut p1 = value.get_char(1);
    let mut i: usize = 2;
    while i < n
        invariant
            2 <= i <= n,
            n == value@.len(),
            p2 == value@[i - 2],
            p1 == value@[i - 1],
            forall|j: int|
                0 <= j && j + 2 < i ==> !(#[trigger] value@[j] == value@[j + 1] && value@[j + 1]
                    == value@[j + 2]),
        decreases n - i,
    {
        let c = value.get_char(i);
        if p2 == p1 && p1 == c {
            return true;
        }
        p2 = p1;
        p1 = c;
        i = i + 1;
    }
    false
}

/// Whether `value` (of character count `n`) is its first `p` characters
/// repeated over its whole length; false when `p` is no proper period.
fn block_repeat_with(value: &str, n: usize, p: usize) -> (r: bool)
    requires
        n == value@.len(),
        1 <= p,
    ensures
        r == (p < value@.len() && value@.len() % (p as nat) == 0 && repeats_with_period(
            value@,
            p as int,
        )),
{
    if !(p < n && n % p == 0) {
        return false;
    }
    let mut i: usize = p;
    while i < n
        invariant
            p <= i <= n,
            n == value@.len(),
            forall|j: int| p <= j < i ==> #[trigger] value@[j] == value@[j - p],
        decreases n - i,
    {
        if value.get_char(i) != value.get_char(i - p) {
            return false;
        }
        i = i + 1;
    }
    true
}

/// Whether `value` holds a degenerate pattern: a run of three identical
/// characters, or a block of at most four characters repeated throughout.
fn scan_degenerate(value: &str) -> (r: bool)
    ensures
        r == has_degenerate_pattern(value@),
{
    let n = value.unicode_len();
    if scan_run_of_three(value) {
        return true;
    }
    let b1 = block_repeat_with(value, n, 1);
    let b2 = block_repeat_with(value, n, 2);
    let b3 = block_repeat_with(value, n, 3);
    let b4 = block_repeat_with(value, n, 4);
    proof {
        if is_repeated_block(value@) {
            let p = choose|p: int|
                1 <= p <= 4 && p < value@.len() && value@.len() % (p as nat) == 0
                    && #[trigger] repeats_with_period(value@, p);
            assert(p == 1 || p == 2 || p == 3 || p == 4);
            assert(b1 || b2 || b3 || b4);
        }
        if b1 || b2 || b3 || b4 {
            assert(is_repeated_block(value@));
        }
    }
    b1 || b2 || b3 || b4
}

/// The `100 * log2` step function on an alphabet size.
fn log2_centibits_exec(n: u64) -> (r: u64)
    ensures
        r as nat == log2_centibits(n as nat),
{
    if n >= 95 {
        656
    } else if n >= 85 {
        640
    } else if n >= 78 {
        628
    } else if n >= 69 {
        610
    } else if n >= 62 {
        595
    } else if n >= 59 {
        588
    } else if n >= 52 {
        570
    } else if n >= 43 {
        542
    } else if n >= 36 {
        516
    } else if n >= 33 {
        504
    } else if n >= 26 {
        470
    } else if n >= 10 {
        332
    } else {
        0
    }
}

/// Estimates the entropy of `value` in centibits: a single pass determines
/// the character classes in use and the degenerate-pattern flag, and the
/// estimate is `length * log2(effective alphabet)`, divided by
/// `penalty_divisor` when a degenerate pattern was found.
pub fn estimate_entropy_centibits(value: &str, penalty_divisor: u64) -> (r: u128)
    requires
        penalty_divisor >= 1,
    ensures
        r as nat == entropy_centibits(value@, penalty_divisor as nat),
{
    let n = value.unicode_len();
    let mut alphabet: u64 = 0;
    if crate::validation::scan_has_lowercase(value) {
        alphabet = alphabet + LOWER_CLASS_SIZE;
    }
    if crate::validation::scan_has_uppercase(value) {
        alphabet = alphabet + UPPER_CLASS_SIZE;
    }
    if crate::validation::scan_has_digit(value) {
        alphabet = alphabet + DIGIT_CLASS_SIZE;
    }
    if scan_has_other(value) {
        alphabet = alphabet + OTHER_CLASS_SIZE;
    }
    assert(alphabet as nat == alphabet_size(value@));
    let bits_per_char = log2_centibits_exec(alphabet);
    assert(bits_per_char <= 656);
    let raw: u128 = (n as u128) * (bits_per_char as u128);
    assert(raw as nat == raw_entropy_centibits(value@));
    if scan_degenerate(value) {
        raw / (penalty_divisor as u128)
    } else {
        raw
    }
}

/// Immutable configuration for the passphrase policy.
#[derive(Debug, Clone)]
pub struct PassphraseConfig {
    /// Smallest acceptable character count.
    pub min_length: usize,
    /// Largest acceptable character count.
    pub max_length: usize,
    /// Entropy threshold, in whole bits, an accepted passphrase must reach.
    pub min_entropy_bits: u64,
    /// Divisor applied to the raw estimate of a degenerate candidate;
    /// the default policy halves it.
    pub penalty_divisor: u64,
}

impl PassphraseConfig {
    /// A well-formed configuration has a usable penalty divisor.
    pub open spec fn wf(self) -> bool {
        self.penalty_divisor >= 1
    }

    /// Builds a configuration with the default halving penalty.
    pub fn new(min_length: usize, max_length: usize, min_entropy_bits: u64) -> (c: Self)
        ensures
            c.min_length == min_length,
            c.max_length == max_length,
            c.min_entropy_bits == min_entropy_bits,
            c.penalty_divisor == 2,
            c.wf(),
    {
        PassphraseConfig { min_length, max_length, min_entropy_bits, penalty_divisor: 2 }
    }
}

/// The outcome of the passphrase policy, as a mathematical value.
pub enum PassphraseVerdict {
    Accepted,
    WrongLength,
    LowEntropy,
}

/// The verdict of the passphrase policy on candidate `s` under `cfg`: the
/// structural length check decides first (no entropy is computed for a
/// candidate of the wrong length, so the empty candidate never reaches the
/// estimator), then the entropy threshold.
pub open spec fn passphrase_verdict(s: Seq<char>, cfg: PassphraseConfig) -> PassphraseVerdict {
    if !(cfg.min_length <= s.len() && s.len() <= cfg.max_length) {
        PassphraseVerdict::WrongLength
    } else if entropy_centibits(s, cfg.penalty_divisor as nat) < cfg.min_entropy_bits * 100 {
        PassphraseVerdict::LowEntropy
    } else {
        PassphraseVerdict::Accepted
    }
}

/// The message reported for a passphrase below the entropy threshold.
pub open spec fn entropy_message(measured: nat, required: nat) -> Seq<char> {
    "estimated "@ + dec_seq(measured) + " centibits, required "@ + dec_seq(required)
        + " centibits"@
}

/// Validates a passphrase: `check_length` first, then the entropy estimate
/// against the configured threshold. On acceptance the computed strength
/// score (in centibits) is returned. The result is a pure function of
/// `(value, cfg)`.
pub fn validate_passphrase(value: &str, cfg: &PassphraseConfig) -> (r: Result<u128, Error>)
    requires
        cfg.wf(),
    ensures
        r is Ok <==> passphrase_verdict(value@, *cfg) is Accepted,
        r matches Ok(score) ==> score as nat == entropy_centibits(
            value@,
            cfg.penalty_divisor as nat,
        ),
        r matches Err(e) ==> match passphrase_verdict(value@, *cfg) {
            PassphraseVerdict::Accepted => false,
            PassphraseVerdict::WrongLength => e matches Error::InvalidLength {
                min,
                max,
                actual,
            } && min == cfg.min_length && max == cfg.max_length && actual == value@.len(),
            PassphraseVerdict::LowEntropy => e matches Error::Entropy(m) && m@ == entropy_message(
                entropy_centibits(value@, cfg.penalty_divisor as nat),
                (cfg.min_entropy_bits * 100) as nat,
            ),
        },
{
    match check_length(value, cfg.min_length, cfg.max_length) {
        Err(e) => Err(e),
        Ok(()) => {
            let measured = estimate_entropy_centibits(value, cfg.penalty_divisor);
            let required: u128 = (cfg.min_entropy_bits as u128) * 100;
            if measured >= required {
                Ok(measured)
            } else {
                let mut m = String::from_str("estimated ");
                push_decimal(&mut m, measured);
                m.append(" centibits, required ");
                push_decimal(&mut m, required);
                m.append(" centibits");
                proof {
                    assert(m@ =~= entropy_message(
                        entropy_centibits(value@, cfg.penalty_divisor as nat),
                        (cfg.min_entropy_bits * 100) as nat,
                    ));
                }
                Err(Error::Entropy(m))
            }
        },
    }
}

/// Law: with the penalty held constant, a candidate drawing on all four
/// character classes has a strictly greater raw entropy estimate than an
/// equally long candidate drawing on a single class.
pub proof fn lemma_entropy_monotonic_in_classes(s1: Seq<char>, s2: Seq<char>)
    requires
        s1.len() == s2.len(),
        s1.len() >= 1,
        class_count(s1) == 4,
        class_count(s2) == 1,
    ensures
        raw_entropy_centibits(s1) > raw_entropy_centibits(s2),
{
    assert(alphabet_size(s1) == 95);
    assert(log2_centibits(alphabet_size(s1)) == 656);
    assert(log2_centibits(alphabet_size(s2)) <= 504);
    assert(s1.len() * 656 > s1.len() * 504) by (nonlinear_arith)
        requires
            s1.len() >= 1,
    ;
    assert(s2.len() * log2_centibits(alphabet_size(s2)) <= s2.len() * 504) by (nonlinear_arith)
        requires
            log2_centibits(alphabet_size(s2)) <= 504,
    ;
}

/// Law: under the default halving penalty, a candidate drawing on all four
/// character classes still scores strictly higher than an equally long
/// single-class candidate, provided both share the same degenerate-pattern
/// status (so the penalty applies to both or to neither).
pub proof fn lemma_entropy_monotonic_in_classes_default_penalty(s1: Seq<char>, s2: Seq<char>)
    requires
        s1.len() == s2.len(),
        s1.len() >= 1,
        class_count(s1) == 4,
        class_count(s2) == 1,
        has_degenerate_pattern(s1) == has_degenerate_pattern(s2),
    ensures
        entropy_centibits(s1, 2) > entropy_centibits(s2, 2),
{
    lemma_entropy_monotonic_in_classes(s1, s2);
    if has_degenerate_pattern(s1) {
        let len = s1.len();
        let l1 = log2_centibits(alphabet_size(s1));
        let l2 = log2_centibits(alphabet_size(s2));
        assert(l1 == 656);
        assert(l2 == 470 || l2 == 332 || l2 == 504);
        assert(len * l1 == 2 * (len * 328)) by (nonlinear_arith)
            requires
                l1 == 656,
        ;
        assert(len * l2 == 2 * (len * (l2 / 2))) by (nonlinear_arith)
            requires
                l2 == 470 || l2 == 332 || l2 == 504,
        ;
        vstd::arithmetic::div_mod::lemma_div_multiples_vanish(len * 328 as int, 2);
        vstd::arithmetic::div_mod::lemma_div_multiples_vanish(len * (l2 / 2) as int, 2);
        assert(len * 328 > len * (l2 / 2)) by (nonlinear_arith)
            requires
                len >= 1,
                l2 / 2 <= 252,
        ;
    }
}

/// Law: the `log2` step function is monotone, so the raw estimate never
/// falls when the effective alphabet grows.
pub proof fn lemma_log2_centibits_monotone(a: nat, b: nat)
    requires
        a <= b,
    ensures
        log2_centibits(a) <= log2_centibits(b),
{
}

/// Law: with the alphabet held constant, the raw estimate never falls when
/// the candidate grows longer.
pub proof fn lemma_entropy_monotone_in_length(s1: Seq<char>, s2: Seq<char>)
    requires
        s1.len() <= s2.len(),
        alphabet_size(s1) == alphabet_size(s2),
    ensures
        raw_entropy_centibits(s1) <= raw_entropy_centibits(s2),
{
    assert(s1.len() * log2_centibits(alphabet_size(s1)) <= s2.len() * log2_centibits(
        alphabet_size(s1),
    )) by (nonlinear_arith)
        requires
            s1.len() <= s2.len(),
    ;
}

/// Law: the passphrase policy is a pure function of the candidate and the
/// configuration — running it twice on the same pair yields the same
/// verdict.
pub proof fn lemma_passphrase_idempotent(
    s1: Seq<char>,
    cfg1: PassphraseConfig,
    s2: Seq<char>,
    cfg2: PassphraseConfig,
)
    requires
        s1 == s2,
        cfg1 == cfg2,
    ensures
        passphrase_verdict(s1, cfg1) == passphrase_verdict(s2, cfg2),
{
}

} // verus!
