use payrex::API_BASE_URL;
use payrex::VERSION;
use payrex::parse_u64_str;
use payrex::str_eq;
use payrex::str_starts_with;
use payrex::u64_to_string;

#[test]
fn test_version_exists() {
    assert!(!VERSION.is_empty());
}

#[test]
fn test_api_url_valid() {
    assert!(API_BASE_URL.starts_with("https://"));
}

#[test]
fn test_str_eq() {
    assert!(str_eq("abc", "abc"));
    assert!(!str_eq("abc", "abd"));
    assert!(!str_eq("abc", "ab"));
    assert!(str_eq("", ""));
}

#[test]
fn test_str_starts_with() {
    assert!(str_starts_with("pi_123", "pi_"));
    assert!(!str_starts_with("cus_123", "pi_"));
    assert!(str_starts_with("abc", ""));
    assert!(!str_starts_with("ab", "abc"));
}

#[test]
fn test_u64_to_string() {
    assert_eq!(u64_to_string(0), "0");
    assert_eq!(u64_to_string(7), "7");
    assert_eq!(u64_to_string(120), "120");
    assert_eq!(u64_to_string(u64::MAX), "18446744073709551615");
}

#[test]
fn test_parse_u64_str() {
    assert_eq!(parse_u64_str("5"), Some(5));
    assert_eq!(parse_u64_str("0"), Some(0));
    assert_eq!(parse_u64_str("+5"), Some(5));
    assert_eq!(parse_u64_str("18446744073709551615"), Some(u64::MAX));
    assert_eq!(parse_u64_str(""), None);
    assert_eq!(parse_u64_str("+"), None);
    assert_eq!(parse_u64_str("abc"), None);
    assert_eq!(parse_u64_str("5s"), None);
    assert_eq!(parse_u64_str("-5"), None);
    assert_eq!(parse_u64_str("18446744073709551616"), None);
    assert_eq!(parse_u64_str("99999999999999999999999"), None);
}

#[test]
fn test_parse_u64_agrees_with_std() {
    for input in ["5", "+5", "", "007", "18446744073709551615", "18446744073709551616", "4 ", "x"]
    {
        assert_eq!(parse_u64_str(input), input.parse::<u64>().ok(), "input: {:?}", input);
    }
}
