use credential_policy::error::Error;
use credential_policy::passphrase::{
    estimate_entropy_centibits, validate_passphrase, PassphraseConfig,
};
use credential_policy::password::{validate_password, PasswordConfig};
use credential_policy::pin::{validate_pin, PinConfig};

fn password_config() -> PasswordConfig {
    PasswordConfig {
        min_length: 8,
        max_length: 64,
        require_upper: true,
        require_lower: true,
        require_digit: true,
        special_charset: Some(String::from("!@#$")),
    }
}

#[test]
fn test_password_end_to_end() {
    let cfg = password_config();
    assert_eq!(validate_password("Abcdef1!", &cfg), Ok(()));
    assert_eq!(
        validate_password("abcdef1!", &cfg),
        Err(Error::Validation(String::from("missing uppercase character")))
    );
    assert_eq!(
        validate_password("Abc1!", &cfg),
        Err(Error::InvalidLength { min: 8, max: 64, actual: 5 })
    );
}

#[test]
fn test_password_length_checked_before_categories() {
    // "abc" misses uppercase, digit and special too, but the length check
    // runs first and its failure is the one reported.
    let cfg = password_config();
    assert_eq!(
        validate_password("abc", &cfg),
        Err(Error::InvalidLength { min: 8, max: 64, actual: 3 })
    );
}

#[test]
fn test_password_no_special_required() {
    let cfg = PasswordConfig {
        min_length: 4,
        max_length: 64,
        require_upper: false,
        require_lower: true,
        require_digit: false,
        special_charset: None,
    };
    assert_eq!(validate_password("abcd", &cfg), Ok(()));
    assert_eq!(
        validate_password("ABCD", &cfg),
        Err(Error::Validation(String::from("missing lowercase character")))
    );
}

#[test]
fn test_pin_weak_patterns_rejected() {
    let cfg = PinConfig { exact_length: 4, reject_weak_patterns: true };
    let weak = Err(Error::Validation(String::from("weak PIN pattern")));
    assert_eq!(validate_pin("1234", &cfg), weak);
    assert_eq!(validate_pin("4321", &cfg), weak);
    assert_eq!(validate_pin("1111", &cfg), weak);
    assert_eq!(validate_pin("1357", &cfg), Ok(()));
}

#[test]
fn test_pin_weak_patterns_allowed_when_disabled() {
    let cfg = PinConfig { exact_length: 4, reject_weak_patterns: false };
    assert_eq!(validate_pin("1234", &cfg), Ok(()));
    assert_eq!(validate_pin("1111", &cfg), Ok(()));
}

#[test]
fn test_pin_format_errors() {
    let cfg = PinConfig { exact_length: 4, reject_weak_patterns: true };
    assert_eq!(validate_pin("123", &cfg), Err(Error::PinFormat { len: 4 }));
    assert_eq!(validate_pin("12345", &cfg), Err(Error::PinFormat { len: 4 }));
    assert_eq!(validate_pin("12a4", &cfg), Err(Error::PinFormat { len: 4 }));
    assert_eq!(validate_pin("", &cfg), Err(Error::PinFormat { len: 4 }));
}

#[test]
fn test_entropy_four_classes_beats_one_class() {
    // Equal length, no degenerate pattern in either: four classes give a
    // 95-character effective alphabet (6.56 bits per character), one class
    // gives 26 (4.70 bits per character).
    let four = estimate_entropy_centibits("aB3!xQ7%", 2);
    let one = estimate_entropy_centibits("abcdefgh", 2);
    assert_eq!(four, 8 * 656);
    assert_eq!(one, 8 * 470);
    assert!(four > one);
}

#[test]
fn test_entropy_degenerate_penalty() {
    // "aaaaaaaa" holds a run of identical characters, so its raw estimate
    // (8 chars * 4.70 bits) is halved; "aB3xQ7zM" has no degenerate
    // pattern and three classes (alphabet 62, 5.95 bits per character).
    let repeated = estimate_entropy_centibits("aaaaaaaa", 2);
    let mixed = estimate_entropy_centibits("aB3xQ7zM", 2);
    assert_eq!(repeated, 8 * 470 / 2);
    assert_eq!(mixed, 8 * 595);
    assert!(repeated < mixed);
}

#[test]
fn test_entropy_repeated_block_penalized() {
    // "abab..." repeats a two-character block over its whole length.
    let block = estimate_entropy_centibits("abababab", 2);
    assert_eq!(block, 8 * 470 / 2);
    // A custom penalty divisor is honored.
    assert_eq!(estimate_entropy_centibits("abababab", 4), 8 * 470 / 4);
}

#[test]
fn test_passphrase_accepts_with_score() {
    let cfg = PassphraseConfig::new(8, 64, 30);
    assert_eq!(validate_passphrase("aB3xQ7zM", &cfg), Ok(8 * 595));
}

#[test]
fn test_passphrase_low_entropy_rejected() {
    let cfg = PassphraseConfig::new(8, 64, 30);
    assert_eq!(
        validate_passphrase("aaaaaaaa", &cfg),
        Err(Error::Entropy(String::from(
            "estimated 1880 centibits, required 3000 centibits"
        )))
    );
}

#[test]
fn test_passphrase_length_checked_before_entropy() {
    // The structural check rejects first: no entropy is reported for a
    // too-short candidate, and the empty candidate never reaches the
    // estimator.
    let cfg = PassphraseConfig::new(8, 64, 30);
    assert_eq!(
        validate_passphrase("Abc1!", &cfg),
        Err(Error::InvalidLength { min: 8, max: 64, actual: 5 })
    );
    assert_eq!(
        validate_passphrase("", &cfg),
        Err(Error::InvalidLength { min: 8, max: 64, actual: 0 })
    );
}

#[test]
fn test_policies_idempotent() {
    let pw_cfg = password_config();
    assert_eq!(
        validate_password("Abcdef1!", &pw_cfg),
        validate_password("Abcdef1!", &pw_cfg)
    );
    assert_eq!(
        validate_password("abcdef1!", &pw_cfg),
        validate_password("abcdef1!", &pw_cfg)
    );
    let pp_cfg = PassphraseConfig::new(8, 64, 30);
    assert_eq!(
        validate_passphrase("aB3xQ7zM", &pp_cfg),
        validate_passphrase("aB3xQ7zM", &pp_cfg)
    );
    assert_eq!(
        validate_passphrase("aaaaaaaa", &pp_cfg),
        validate_passphrase("aaaaaaaa", &pp_cfg)
    );
    let pin_cfg = PinConfig { exact_length: 4, reject_weak_patterns: true };
    assert_eq!(validate_pin("1234", &pin_cfg), validate_pin("1234", &pin_cfg));
    assert_eq!(validate_pin("1357", &pin_cfg), validate_pin("1357", &pin_cfg));
}
