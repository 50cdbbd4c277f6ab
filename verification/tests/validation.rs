use credential_policy::error::Error;
use credential_policy::validation::{
    check_length, check_range, contains_categories, contains_only_charset, contains_only_digits,
};

#[test]
fn test_check_length() {
    assert!(check_length("abc", 2, 5).is_ok());
    assert!(check_length("a", 2, 5).is_err());
    assert!(check_length("abcdef", 2, 5).is_err());
}

#[test]
fn test_contains_only_digits() {
    assert!(contains_only_digits("1234", 4).is_ok());
    assert!(contains_only_digits("12a4", 4).is_err());
    assert!(contains_only_digits("123", 4).is_err());
}

#[test]
fn test_contains_only_charset() {
    assert!(contains_only_charset("abc", "abc").is_ok());
    assert!(contains_only_charset("abcd", "abc").is_err());
}

#[test]
fn test_contains_categories() {
    assert!(contains_categories("Aa1!", true, true, true, Some("!@#")).is_ok());
    assert!(contains_categories("aa1!", true, true, true, Some("!@#")).is_err());
    assert!(contains_categories("AA1!", true, true, true, Some("!@#")).is_err());
    assert!(contains_categories("Aa!!", true, true, true, Some("!@#")).is_err());
}

#[test]
fn test_check_length_error_payload() {
    assert_eq!(
        check_length("a", 2, 5),
        Err(Error::InvalidLength { min: 2, max: 5, actual: 1 })
    );
    assert_eq!(
        check_length("abcdef", 2, 5),
        Err(Error::InvalidLength { min: 2, max: 5, actual: 6 })
    );
    // Length is measured in characters, not bytes.
    assert!(check_length("héllo", 5, 5).is_ok());
}

#[test]
fn test_contains_only_digits_error_payload() {
    assert_eq!(
        contains_only_digits("12a4", 4),
        Err(Error::PinFormat { len: 4 })
    );
    assert_eq!(
        contains_only_digits("123", 4),
        Err(Error::PinFormat { len: 4 })
    );
}

#[test]
fn test_contains_only_charset_error_payload() {
    assert_eq!(
        contains_only_charset("abcd", "abc"),
        Err(Error::InvalidCharset(String::from("abc")))
    );
    assert!(contains_only_charset("", "abc").is_ok());
}

#[test]
fn test_category_order_first_unmet_reported() {
    // Uppercase is checked first, so it is the failure reported even though
    // the digit and special requirements could independently apply.
    assert_eq!(
        contains_categories("aa1!", true, true, true, Some("!@#")),
        Err(Error::Validation(String::from("missing uppercase character")))
    );
    assert_eq!(
        contains_categories("AA1!", true, true, true, Some("!@#")),
        Err(Error::Validation(String::from("missing lowercase character")))
    );
    assert_eq!(
        contains_categories("Aaa!", true, true, true, Some("!@#")),
        Err(Error::Validation(String::from("missing digit")))
    );
    assert_eq!(
        contains_categories("Aa11", true, true, true, Some("!@#")),
        Err(Error::Validation(String::from("missing special character")))
    );
}

#[test]
fn test_check_range_bounds() {
    assert!(check_range(5, 1, 10, "cost").is_ok());
    assert!(check_range(1, 1, 10, "cost").is_ok());
    assert!(check_range(10, 1, 10, "cost").is_ok());
    assert_eq!(
        check_range(11, 1, 10, "cost"),
        Err(Error::Validation(String::from(
            "cost must be between 1 and 10, got 11"
        )))
    );
    assert_eq!(
        check_range(0, 1, 10, "cost"),
        Err(Error::Validation(String::from(
            "cost must be between 1 and 10, got 0"
        )))
    );
}
