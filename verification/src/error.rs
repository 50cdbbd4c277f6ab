//! The closed error taxonomy shared by every policy.
//!
//! Each rejection carries enough structured data (expected bounds, the
//! offending charset, the measured entropy) to reconstruct a human-readable
//! message without re-inspecting the candidate secret. No variant ever
//! carries the raw candidate itself.

use crate::decimal::{dec_seq, push_decimal};
use vstd::prelude::*;

verus! {

/// One entry per distinct failure cause across the whole library.
#[derive(Debug, Clone, PartialEq, Eq)]
pub enum Error {
    /// Failure reported by a cryptographic collaborator.
    Crypto(String),
    /// A passphrase fell below the configured entropy threshold.
    Entropy(String),
    /// A generic validation failure, such as a missing character category.
    Validation(String),
    /// A candidate's character count fell outside `[min, max]`.
    InvalidLength { min: usize, max: usize, actual: usize },
    /// A candidate used a character outside the allowed charset.
    InvalidCharset(String),
    /// A password-specific failure.
    Password(String),
    /// Failure reported by the password-hashing collaborator.
    Bcrypt(String),
    /// A PIN was not exactly `len` ASCII digits.
    PinFormat { len: usize },
    /// Failure reported by the token-issuance collaborator.
    Jwt(String),
    /// Failure reported by the API-key collaborator.
    ApiKey(String),
    /// An internal invariant was broken.
    Internal { msg: String },
}

impl Error {
    /// The human-readable message for this error, as a sequence of
    /// characters.
    pub open spec fn message_spec(&self) -> Seq<char> {
        match self {
            Error::Crypto(s) => "Crypto error: "@ + s@,
            Error::Entropy(s) => "Insufficient entropy: "@ + s@,
            Error::Validation(s) => "Validation error: "@ + s@,
            Error::InvalidLength { min, max, actual } => "Invalid length: expected between "@
                + dec_seq(*min as nat) + " and "@ + dec_seq(*max as nat) + ", got "@ + dec_seq(
                *actual as nat,
            ),
            Error::InvalidCharset(s) => "Invalid character set: "@ + s@,
            Error::Password(s) => "Password error: "@ + s@,
            Error::Bcrypt(s) => "Bcrypt error: "@ + s@,
            Error::PinFormat { len } => "PIN must be numeric and of length "@ + dec_seq(
                *len as nat,
            ),
            Error::Jwt(s) => "JWT error: "@ + s@,
            Error::ApiKey(s) => "API key error: "@ + s@,
            Error::Internal { msg } => "Internal error: "@ + msg@,
        }
    }

    /// Renders the human-readable message for this error. Every variant
    /// carries the structured data its message needs, so the candidate
    /// secret is never consulted (nor ever stored in an error).
    pub fn message(&self) -> (m: String)
        ensures
            m@ == self.message_spec(),
    {
        match self {
            Error::Crypto(s) => {
                let mut m = String::from_str("Crypto error: ");
                m.append(s.as_str());
                proof {
                    assert(m@ =~= self.message_spec());
                }
                m
            },
            Error::Entropy(s) => {
                let mut m = String::from_str("Insufficient entropy: ");
                m.append(s.as_str());
                proof {
                    assert(m@ =~= self.message_spec());
                }
                m
            },
            Error::Validation(s) => {
                let mut m = String::from_str("Validation error: ");
                m.append(s.as_str());
                proof {
                    assert(m@ =~= self.message_spec());
                }
                m
            },
            Error::InvalidLength { min, max, actual } => {
                let mut m = String::from_str("Invalid length: expected between ");
                push_decimal(&mut m, *min as u128);
                m.append(" and ");
                push_decimal(&mut m, *max as u128);
                m.append(", got ");
                push_decimal(&mut m, *actual as u128);
                proof {
                    assert(m@ =~= self.message_spec());
                }
                m
            },
            Error::InvalidCharset(s) => {
                let mut m = String::from_str("Invalid character set: ");
                m.append(s.as_str());
                proof {
                    assert(m@ =~= self.message_spec());
                }
                m
            },
            Error::Password(s) => {
                let mut m = String::from_str("Password error: ");
                m.append(s.as_str());
                proof {
                    assert(m@ =~= self.message_spec());
                }
                m
            },
            Error::Bcrypt(s) => {
                let mut m = String::from_str("Bcrypt error: ");
                m.append(s.as_str());
                proof {
                    assert(m@ =~= self.message_spec());
                }
                m
            },
            Error::PinFormat { len } => {
                let mut m = String::from_str("PIN must be numeric and of length ");
                push_decimal(&mut m, *len as u128);
                proof {
                    assert(m@ =~= self.message_spec());
                }
                m
            },
            Error::Jwt(s) => {
                let mut m = String::from_str("JWT error: ");
                m.append(s.as_str());
                proof {
                    assert(m@ =~= self.message_spec());
                }
                m
            },
            Error::ApiKey(s) => {
                let mut m = String::from_str("API key error: ");
                m.append(s.as_str());
                proof {
                    assert(m@ =~= self.message_spec());
                }
                m
            },
            Error::Internal { msg } => {
                let mut m = String::from_str("Internal error: ");
                m.append(msg.as_str());
                proof {
                    assert(m@ =~= self.message_spec());
                }
                m
            },
        }
    }
}

} // verus!
