use nunu_cli::api::{
    api_status_error, labelled_status_error, missing_etag_error, parse_failure_error,
    storage_error_fields, upload_failure_error,
};
use nunu_cli::error::Error;
use nunu_cli::numbers::{comma_join, u64_to_string};
use nunu_cli::text::{
    ascii_lowercase, contains_sub, eq_ignore_ascii_case, find_sub, parse_u32, prefix_chars,
    rfind_char, str_eq, strip_prefix_str, text_after, text_before, trim_start_matches_str,
};

#[test]
fn test_str_eq() {
    assert!(str_eq("abc", "abc"));
    assert!(!str_eq("abc", "abd"));
    assert!(!str_eq("abc", "ab"));
    assert!(str_eq("", ""));
}

#[test]
fn test_eq_ignore_ascii_case() {
    assert!(eq_ignore_ascii_case("ExE", "exe"));
    assert!(eq_ignore_ascii_case("IOS-NATIVE", "ios-native"));
    assert!(!eq_ignore_ascii_case("exe", "exf"));
}

#[test]
fn test_ascii_lowercase() {
    assert_eq!(ascii_lowercase("MiXeD-123_Z"), "mixed-123_z");
    assert_eq!(ascii_lowercase(""), "");
}

#[test]
fn test_find_and_contains() {
    assert_eq!(find_sub("hello world", "world"), Some(6));
    assert_eq!(find_sub("hello", "world"), None);
    assert_eq!(find_sub("aaa", "aa"), Some(0));
    assert_eq!(find_sub("anything", ""), Some(0));
    assert!(contains_sub("https://github.com/x", "github.com"));
    assert!(!contains_sub("https://example.test", "github.com"));
}

#[test]
fn test_text_after_and_before() {
    assert_eq!(text_after("a<Code>X</Code>b", "<Code>").as_deref(), Some("X</Code>b"));
    assert_eq!(text_after("nothing here", "<Code>"), None);
    assert_eq!(text_before("X</Code>b", "</Code>"), "X");
    assert_eq!(text_before("no close tag", "</Code>"), "no close tag");
}

#[test]
fn test_trim_and_strip() {
    assert_eq!(trim_start_matches_str("origin/main", "origin/"), "main");
    assert_eq!(trim_start_matches_str("origin/origin/main", "origin/"), "main");
    assert_eq!(trim_start_matches_str("main", "origin/"), "main");
    assert_eq!(strip_prefix_str("refs/pull/42/merge", "refs/pull/").as_deref(), Some("42/merge"));
    assert_eq!(strip_prefix_str("refs/heads/x", "refs/tags/"), None);
}

#[test]
fn test_prefix_and_rfind() {
    assert_eq!(prefix_chars("abcdef", 3), "abc");
    assert_eq!(prefix_chars("ab", 7), "ab");
    assert_eq!(rfind_char("a/b/c", '/'), Some(3));
    assert_eq!(rfind_char("abc", '/'), None);
}

#[test]
fn test_parse_u32() {
    assert_eq!(parse_u32("123"), Some(123));
    assert_eq!(parse_u32("+7"), Some(7));
    assert_eq!(parse_u32("007"), Some(7));
    assert_eq!(parse_u32("0"), Some(0));
    assert_eq!(parse_u32("4294967295"), Some(u32::MAX));
    assert_eq!(parse_u32("4294967296"), None);
    assert_eq!(parse_u32(""), None);
    assert_eq!(parse_u32("+"), None);
    assert_eq!(parse_u32("12a"), None);
    assert_eq!(parse_u32("-1"), None);
    assert_eq!(parse_u32(" 1"), None);
}

#[test]
fn test_u64_to_string() {
    assert_eq!(u64_to_string(0), "0");
    assert_eq!(u64_to_string(7), "7");
    assert_eq!(u64_to_string(1234567890), "1234567890");
    assert_eq!(u64_to_string(u64::MAX), "18446744073709551615");
}

#[test]
fn test_comma_join() {
    assert_eq!(comma_join(&vec![]), "");
    assert_eq!(comma_join(&vec![5]), "5");
    assert_eq!(comma_join(&vec![1, 2, 10]), "1,2,10");
}

#[test]
fn test_storage_error_fields() {
    let body = "<Error><Code>AccessDenied</Code><Message>No luck</Message></Error>";
    let (code, message) = storage_error_fields(body).unwrap();
    assert_eq!(code, "AccessDenied");
    assert_eq!(message, "No luck");
    assert_eq!(storage_error_fields("plain text"), None);
    // a body with a code but no message falls back to the whole body
    let no_message = "<Code>Slow</Code>";
    let (c2, m2) = storage_error_fields(no_message).unwrap();
    assert_eq!(c2, "Slow");
    assert_eq!(m2, no_message);
}

#[test]
fn test_upload_failure_error_with_envelope() {
    let body = "<Code>AccessDenied</Code><Message>No luck</Message>";
    match upload_failure_error("403 Forbidden", body) {
        Error::UploadError(m) => {
            assert!(m.starts_with("Storage error: AccessDenied - No luck"));
            assert!(m.contains("To diagnose, test the upload URL directly:"));
        }
        _ => panic!("a transfer failure is an upload error"),
    }
}

#[test]
fn test_upload_failure_error_without_envelope() {
    match upload_failure_error("500 Internal Server Error", "boom") {
        Error::UploadError(m) => assert_eq!(m, "Status 500 Internal Server Error: boom"),
        _ => panic!("a transfer failure is an upload error"),
    }
}

#[test]
fn test_api_status_error() {
    match api_status_error("404 Not Found", "missing") {
        Error::ApiError(m) => assert_eq!(m, "Status 404 Not Found: missing"),
        _ => panic!("a control-plane failure is an api error"),
    }
}

#[test]
fn test_labelled_status_error() {
    match labelled_status_error("Complete multipart", "409 Conflict", "bad order") {
        Error::ApiError(m) => {
            assert_eq!(m, "Complete multipart failed - Status 409 Conflict: bad order")
        }
        _ => panic!("a completion failure is an api error"),
    }
}

#[test]
fn test_parse_failure_error() {
    match parse_failure_error("missing field", "{}") {
        Error::ApiError(m) => {
            assert_eq!(m, "Failed to parse response: missing field. Body was: {}")
        }
        _ => panic!("an unparsable body is an api error"),
    }
}

#[test]
fn test_missing_etag_error() {
    match missing_etag_error() {
        Error::UploadError(m) => assert_eq!(m, "Missing ETag in response"),
        _ => panic!("a missing integrity token is an upload error"),
    }
}
