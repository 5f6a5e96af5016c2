use ferrisfetcher::string_map::StringMap;
use ferrisfetcher::text::{collapse_whitespace, trim};
use ferrisfetcher::time::{from_nanos, is_zero, milliseconds, seconds, whole_millis};
use ferrisfetcher::FerrisFetcherError;
use std::time::Duration;

#[test]
fn trim_removes_whitespace_at_both_ends_only() {
    assert_eq!(trim("  a b \n"), "a b");
    assert_eq!(trim("\u{a0}\u{2003}x\u{3000}"), "x");
    assert_eq!(trim(" \t\r\n "), "");
    assert_eq!(trim(""), "");
    assert_eq!(trim("x"), "x");
    assert_eq!(trim("\u{200b}x"), "\u{200b}x");
    for s in ["  a b \n", " \u{85}é  ", "none", "\t"] {
        assert_eq!(trim(s), s.trim());
    }
}

#[test]
fn collapse_joins_words_with_single_spaces() {
    assert_eq!(collapse_whitespace("   Text   with    extra   spaces   "), "Text with extra spaces");
    assert_eq!(collapse_whitespace("one"), "one");
    assert_eq!(collapse_whitespace(""), "");
    assert_eq!(collapse_whitespace(" \n\t"), "");
    assert_eq!(collapse_whitespace("a\u{a0}b\nc"), "a b c");
    for s in ["  a  b ", "x\ty\n\nz", " é  ü "] {
        assert_eq!(collapse_whitespace(s), s.split_whitespace().collect::<Vec<_>>().join(" "));
    }
}

#[test]
fn string_map_keeps_insertion_order() {
    let mut map: StringMap<u32> = StringMap::new();
    assert!(map.is_empty());
    assert_eq!(map.insert("b".to_string(), 1), None);
    assert_eq!(map.insert("a".to_string(), 2), None);
    assert_eq!(map.insert("b".to_string(), 3), Some(1));
    assert_eq!(map.len(), 2);
    assert_eq!(map.key_at(0), "b");
    assert_eq!(*map.value_at(0), 3);
    assert_eq!(map.key_at(1), "a");
    assert_eq!(map.find("a"), Some(1));
    assert_eq!(map.find("c"), None);
    assert_eq!(map.get("b"), Some(&3));
    assert_eq!(map.get("B"), None);
    assert!(map.contains_key("a"));
    assert_eq!(map.insert("c".to_string(), 4), None);
    assert_eq!(map.remove("b"), Some(3));
    assert_eq!(map.remove("b"), None);
    assert_eq!(map.key_at(0), "a");
    assert_eq!(map.key_at(1), "c");
    let copy = map.clone();
    map.clear();
    assert!(map.is_empty());
    assert_eq!(copy.len(), 2);
    assert_eq!(copy.get("c"), Some(&4));
}

#[test]
fn durations_in_nanoseconds() {
    assert_eq!(seconds(30), Duration::from_secs(30));
    assert_eq!(seconds(u64::MAX), Duration::from_secs(u64::MAX));
    assert_eq!(milliseconds(1500), Duration::from_millis(1500));
    assert_eq!(milliseconds(u64::MAX), Duration::from_millis(u64::MAX));
    assert_eq!(from_nanos(0), Duration::ZERO);
    assert_eq!(from_nanos(1_000_000_001), Duration::new(1, 1));
    assert_eq!(from_nanos(Duration::MAX.as_nanos()), Duration::MAX);
    assert!(is_zero(&Duration::ZERO));
    assert!(!is_zero(&Duration::from_nanos(1)));
    assert_eq!(whole_millis(&Duration::from_micros(2999)), 2);
    assert_eq!(whole_millis(&Duration::MAX), u64::MAX);
}

#[test]
fn error_categories_and_retryability() {
    let d = Duration::from_secs(1);
    let cases: Vec<(FerrisFetcherError, &str, bool)> = vec![
        (FerrisFetcherError::HttpError("x".into()), "HTTP", true),
        (FerrisFetcherError::ParseError("x".into()), "Parsing", false),
        (FerrisFetcherError::ExtractionError("x".into()), "Extraction", false),
        (FerrisFetcherError::ConfigError("x".into()), "Configuration", false),
        (FerrisFetcherError::RateLimitExceeded(d), "Rate Limit", true),
        (FerrisFetcherError::TimeoutError(d), "Timeout", true),
        (FerrisFetcherError::InvalidUrl("x".into()), "URL", false),
        (FerrisFetcherError::IoError("x".into()), "IO", false),
        (FerrisFetcherError::JsonError("x".into()), "JSON", false),
        (FerrisFetcherError::RetryExhausted, "Retry", false),
        (FerrisFetcherError::TaskCancelled, "Cancellation", false),
        (FerrisFetcherError::InvalidSelector("x".into()), "Selector", false),
        (FerrisFetcherError::NetworkError("x".into()), "Network", true),
    ];
    for (error, category, retryable) in cases {
        assert_eq!(error.category(), category);
        assert_eq!(error.is_retryable(), retryable, "{}", category);
    }
}
