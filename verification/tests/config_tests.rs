use ferrisfetcher::types::{RateLimit, RetryPolicy};
use ferrisfetcher::{Config, FerrisFetcherError, HttpMethod, VERSION};
use std::time::Duration;

#[test]
fn test_default_config() {
    let config = Config::default();
    assert!(config.validate().is_ok());
    assert_eq!(config.user_agent, format!("FerrisFetcher/{}", VERSION));
    assert!(config.follow_redirects);
    assert!(config.cookie_jar);
    assert!(config.http2);
    assert!(config.compression);
}

#[test]
fn test_config_builder() {
    let config = Config::new()
        .with_timeout(Duration::from_secs(60))
        .with_max_concurrent_requests(20)
        .without_rate_limit()
        .without_redirects();

    assert!(config.validate().is_ok());
    assert_eq!(config.timeout, Duration::from_secs(60));
    assert_eq!(config.max_concurrent_requests, 20);
    assert!(config.rate_limit.is_none());
    assert!(!config.follow_redirects);
}

#[test]
fn test_invalid_config() {
    let config = Config::new().with_timeout(Duration::from_secs(0));
    assert!(config.validate().is_err());
}

#[test]
fn test_custom_headers() {
    let config = Config::new().with_header("X-Custom-Header", "test-value").unwrap();

    assert!(config.headers.contains_key("x-custom-header"));
    assert_eq!(config.headers.get("x-custom-header").unwrap(), "test-value");
}

fn config_message(result: Result<(), FerrisFetcherError>) -> String {
    match result {
        Err(FerrisFetcherError::ConfigError(message)) => message,
        other => panic!("unexpected outcome: {:?}", other),
    }
}

#[test]
fn default_config_values() {
    let config = Config::default();
    assert_eq!(config.timeout, Duration::from_secs(30));
    assert_eq!(config.max_concurrent_requests, 10);
    let limit = config.rate_limit.unwrap();
    assert_eq!(limit.requests_per_period, 10);
    assert_eq!(limit.period, Duration::from_secs(60));
    assert_eq!(limit.delay_between_requests, Duration::from_millis(1000));
    assert_eq!(config.retry_policy.max_attempts, 3);
    assert_eq!(config.retry_policy.base_delay, Duration::from_millis(1000));
    assert_eq!(config.retry_policy.max_delay, Duration::from_millis(10000));
    assert!(config.retry_policy.exponential_backoff);
    assert_eq!(config.retry_policy.backoff_multiplier.thousandths, 2000);
    assert_eq!(config.max_redirects, 5);
    assert!(config.proxy.is_none());
    assert_eq!(config.default_method, HttpMethod::Get);
    assert_eq!(config.connection_pool_size, 100);
    assert_eq!(config.connect_timeout, Duration::from_secs(10));
    assert_eq!(config.keep_alive_timeout, Duration::from_secs(60));
    assert_eq!(config.tcp_keep_alive, Duration::from_secs(60));
    assert!(config.brotli && config.gzip && config.deflate);
}

#[test]
fn default_config_headers() {
    let config = Config::default();
    assert_eq!(config.headers.len(), 7);
    assert_eq!(
        config.headers.get("user-agent").unwrap(),
        format!("FerrisFetcher/{}", VERSION).as_str()
    );
    assert_eq!(
        config.headers.get("accept").unwrap(),
        "text/html,application/xhtml+xml,application/xml;q=0.9,*/*;q=0.8"
    );
    assert_eq!(config.headers.get("accept-language").unwrap(), "en-US,en;q=0.5");
    assert_eq!(config.headers.get("accept-encoding").unwrap(), "gzip, deflate, br");
    assert_eq!(config.headers.get("dnt").unwrap(), "1");
    assert_eq!(config.headers.get("connection").unwrap(), "keep-alive");
    assert_eq!(config.headers.get("upgrade-insecure-requests").unwrap(), "1");
}

#[test]
fn validation_reports_each_problem() {
    assert_eq!(
        config_message(Config::new().with_timeout(Duration::ZERO).validate()),
        "Timeout cannot be zero"
    );
    assert_eq!(
        config_message(Config::new().with_max_concurrent_requests(0).validate()),
        "Max concurrent requests must be greater than 0"
    );
    assert_eq!(
        config_message(Config::new().with_max_redirects(0).validate()),
        "Max redirects must be greater than 0 when following redirects"
    );
    assert!(Config::new().with_max_redirects(0).without_redirects().validate().is_ok());
    let no_requests = RateLimit { requests_per_period: 0, ..RateLimit::default() };
    assert_eq!(
        config_message(Config::new().with_rate_limit(no_requests).validate()),
        "Rate limit requests per period must be greater than 0"
    );
    let no_attempts = RetryPolicy { max_attempts: 0, ..RetryPolicy::default() };
    assert_eq!(
        config_message(Config::new().with_retry_policy(no_attempts).validate()),
        "Retry policy max attempts must be greater than 0"
    );
}

#[test]
fn validation_reports_the_first_problem() {
    let config = Config::new().with_max_concurrent_requests(0).with_timeout(Duration::ZERO);
    assert_eq!(config_message(config.validate()), "Timeout cannot be zero");
}

#[test]
fn a_nanosecond_is_a_timeout() {
    assert!(Config::new().with_timeout(Duration::from_nanos(1)).validate().is_ok());
}

#[test]
fn invalid_header_name_and_value() {
    match Config::new().with_header("bad name", "v") {
        Err(FerrisFetcherError::ConfigError(message)) => {
            assert_eq!(message, "Invalid header name 'bad name': invalid HTTP header name")
        }
        other => panic!("unexpected outcome: {:?}", other.map(|_| ())),
    }
    match Config::new().with_header("", "v") {
        Err(FerrisFetcherError::ConfigError(message)) => {
            assert_eq!(message, "Invalid header name '': invalid HTTP header name")
        }
        other => panic!("unexpected outcome: {:?}", other.map(|_| ())),
    }
    match Config::new().with_header("X-Ok", "bad\nvalue") {
        Err(FerrisFetcherError::ConfigError(message)) => {
            assert_eq!(message, "Invalid header value for 'X-Ok': failed to parse header value")
        }
        other => panic!("unexpected outcome: {:?}", other.map(|_| ())),
    }
    match Config::new().with_header("X-Ok", "bad\u{7f}value") {
        Err(FerrisFetcherError::ConfigError(_)) => {}
        other => panic!("unexpected outcome: {:?}", other.map(|_| ())),
    }
}

#[test]
fn header_values_may_hold_tabs_and_non_ascii_text() {
    let config = Config::new().with_header("X-Note", "a\tb \u{e9}").unwrap();
    assert_eq!(config.headers.get("x-note").unwrap().as_bytes(), "a\tb \u{e9}".as_bytes());
}

#[test]
fn a_header_replaces_the_one_of_the_same_name() {
    let config = Config::new()
        .with_header("Accept", "text/plain")
        .unwrap()
        .with_header("ACCEPT", "text/html")
        .unwrap();
    assert_eq!(config.headers.len(), 7);
    assert_eq!(config.headers.get("accept").unwrap(), "text/html");
    assert_eq!(config.headers.get("dnt").unwrap(), "1");
}

#[test]
fn user_agent_sets_field_and_header() {
    let config = Config::new().with_user_agent("Probe/2.0");
    assert_eq!(config.user_agent, "Probe/2.0");
    assert_eq!(config.headers.get("user-agent").unwrap(), "Probe/2.0");
    let config = Config::new().with_user_agent("bad\nagent");
    assert_eq!(config.user_agent, "bad\nagent");
    assert_eq!(
        config.headers.get("user-agent").unwrap(),
        format!("FerrisFetcher/{}", VERSION).as_str()
    );
}

#[test]
fn remaining_builders() {
    let proxy = url::Url::parse("http://proxy.example:8080").unwrap();
    let config = Config::new()
        .with_proxy(proxy.clone())
        .without_cookies()
        .with_default_method(HttpMethod::Post)
        .with_connection_pool_size(8)
        .without_http2()
        .without_compression()
        .with_max_redirects(2);
    assert_eq!(config.proxy, Some(proxy));
    assert!(!config.cookie_jar);
    assert_eq!(config.default_method, HttpMethod::Post);
    assert_eq!(config.connection_pool_size, 8);
    assert!(!config.http2);
    assert!(!config.compression && !config.brotli && !config.gzip && !config.deflate);
    assert_eq!(config.max_redirects, 2);
    assert!(config.validate().is_ok());
}

#[test]
fn a_copy_has_the_same_settings() {
    let config = Config::new()
        .with_header("X-Token", "abc")
        .unwrap()
        .with_proxy(url::Url::parse("http://proxy.example:8080").unwrap())
        .with_timeout(Duration::from_secs(7));
    let copy = config.clone();
    assert_eq!(copy.user_agent, config.user_agent);
    assert_eq!(copy.timeout, Duration::from_secs(7));
    assert_eq!(copy.headers, config.headers);
    assert_eq!(copy.headers.get("x-token").unwrap(), "abc");
    assert_eq!(copy.proxy, config.proxy);
    assert_eq!(copy.max_concurrent_requests, config.max_concurrent_requests);
    assert_eq!(copy.retry_policy.max_attempts, config.retry_policy.max_attempts);
}
