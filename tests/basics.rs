use neo_meting::json::Json;
use neo_meting::retry::{RetryAction, RetryState};
use neo_meting::text::{parse_u64, replace_all_text, u64_to_decimal};
use neo_meting::{Error, Then};

#[test]
fn decimal_numerals() {
    assert_eq!(u64_to_decimal(0), "0");
    assert_eq!(u64_to_decimal(320000), "320000");
    assert_eq!(u64_to_decimal(u64::MAX), "18446744073709551615");
}

#[test]
fn numeral_parsing_follows_u64_from_str() {
    for text in ["0", "42", "+42", "0042", "18446744073709551615", "", "+", "-0", "4 2", "18446744073709551616", "99999999999999999999"] {
        assert_eq!(parse_u64(text), text.parse::<u64>().ok(), "{text:?}");
    }
}

#[test]
fn replacement_of_every_occurrence() {
    assert_eq!(replace_all_text("http://a http://b", "http://", "https://"), "https://a https://b");
    assert_eq!(replace_all_text("no scheme", "http://", "https://"), "no scheme");
    assert_eq!(replace_all_text("aaa", "aa", "b"), "ba");
    assert_eq!(replace_all_text("", "x", "y"), "");
}

#[test]
fn status_codes() {
    assert_eq!(Error::Remote(String::new()).status_code(), 502);
    assert_eq!(Error::Server(String::new()).status_code(), 500);
    assert_eq!(Error::Encode { engine: "netease", msg: String::new() }.status_code(), 500);
    assert_eq!(Error::NoField("x").status_code(), 502);
    assert_eq!(Error::TypeMismatch { field: "x", target: "u64" }.status_code(), 502);
    assert_eq!(Error::NotFound.status_code(), 404);
    assert_eq!(Error::Unimplemented.status_code(), 501);
}

#[test]
fn retry_with_limit_zero_finishes_after_one_failure() {
    let mut s = RetryState::new(0);
    assert_eq!(s.next(true), RetryAction::Finish);
    assert_eq!(s.counter, 0);
}

#[test]
fn retry_spends_its_limit_then_finishes() {
    let mut s = RetryState::new(2);
    assert_eq!(s.next(true), RetryAction::Again);
    assert_eq!(s.next(true), RetryAction::Again);
    assert_eq!(s.counter, 2);
    assert_eq!(s.next(true), RetryAction::Finish);
    let mut t = RetryState::new(2);
    assert_eq!(t.next(false), RetryAction::Finish);
    assert_eq!(t.counter, 0);
}

#[test]
fn json_member_lookup() {
    let obj = Json::Object(vec![
        ("a".to_string(), Json::Bool(true)),
        ("b".to_string(), Json::Str("x".to_string())),
    ]);
    assert!(matches!(obj.get("a"), Some(Json::Bool(true))));
    assert_eq!(obj.get("b").and_then(|v| v.as_str()).map(|s| s.as_str()), Some("x"));
    assert!(obj.get("c").is_none());
    assert!(Json::Null.get("a").is_none());
}

#[test]
fn then_passes_values_along() {
    assert_eq!(3.then(|x| x + 1), 4);
    assert_eq!(vec![1, 2].change_self(|v| v.push(3)), vec![1, 2, 3]);
}
