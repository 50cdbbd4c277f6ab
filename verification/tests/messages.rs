use credential_policy::decimal::decimal_string;
use credential_policy::error::Error;

#[test]
fn test_decimal_rendering() {
    assert_eq!(decimal_string(0), "0");
    assert_eq!(decimal_string(7), "7");
    assert_eq!(decimal_string(10), "10");
    assert_eq!(decimal_string(907), "907");
    assert_eq!(decimal_string(u64::MAX as u128), "18446744073709551615");
}

#[test]
fn test_invalid_length_message() {
    let e = Error::InvalidLength { min: 8, max: 64, actual: 5 };
    assert_eq!(e.message(), "Invalid length: expected between 8 and 64, got 5");
}

#[test]
fn test_pin_format_message() {
    let e = Error::PinFormat { len: 4 };
    assert_eq!(e.message(), "PIN must be numeric and of length 4");
}

#[test]
fn test_wrapped_messages() {
    assert_eq!(
        Error::Validation(String::from("missing digit")).message(),
        "Validation error: missing digit"
    );
    assert_eq!(
        Error::Entropy(String::from("estimated 1880 centibits, required 3000 centibits")).message(),
        "Insufficient entropy: estimated 1880 centibits, required 3000 centibits"
    );
    assert_eq!(
        Error::Crypto(String::from("boom")).message(),
        "Crypto error: boom"
    );
    assert_eq!(
        Error::Bcrypt(String::from("cost out of range")).message(),
        "Bcrypt error: cost out of range"
    );
    assert_eq!(
        Error::InvalidCharset(String::from("abc")).message(),
        "Invalid character set: abc"
    );
    assert_eq!(
        Error::Password(String::from("unusable")).message(),
        "Password error: unusable"
    );
    assert_eq!(Error::Jwt(String::from("expired")).message(), "JWT error: expired");
    assert_eq!(
        Error::ApiKey(String::from("revoked")).message(),
        "API key error: revoked"
    );
    assert_eq!(
        Error::Internal { msg: String::from("state lost") }.message(),
        "Internal error: state lost"
    );
}
