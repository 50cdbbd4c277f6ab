//! Credential policy engine: validates and scores user-supplied secrets
//! (passwords, passphrases, numeric PINs) against configurable strength
//! rules, estimates their information-theoretic strength, and reports
//! structured failure reasons.
//!
//! Every validation is a pure function of a candidate string and an
//! immutable configuration value: the engine holds no state between calls.

pub mod decimal;
pub mod error;
pub mod passphrase;
pub mod password;
pub mod pin;
pub mod validation;

pub use crate::error::Error;
pub use crate::passphrase::{estimate_entropy_centibits, validate_passphrase, PassphraseConfig};
pub use crate::password::{validate_password, PasswordConfig};
pub use crate::pin::{validate_pin, PinConfig};
pub use crate::validation::{
    check_length, check_range, contains_categories, contains_only_charset, contains_only_digits,
};
