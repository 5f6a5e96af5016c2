//! Configuration management.

use crate::error::FerrisFetcherError;
use crate::text::{concat2, concat4};
use crate::time::{duration_nanos, is_zero, seconds};
use crate::types::{HttpMethod, RateLimit, RetryPolicy};
use reqwest::header::{HeaderMap, HeaderName, HeaderValue};
use std::time::Duration;
use url::Url;
use vstd::prelude::*;
use vstd::string::*;

verus! {

/// The header multimap of the `http` crate, as `reqwest` exports it.
#[verifier::external_type_specification]
#[verifier::external_body]
#[verifier::reject_recursive_types(T)]
pub struct ExHeaderMap<T>(HeaderMap<T>);

/// A validated, lower-cased header name.
#[verifier::external_type_specification]
#[verifier::external_body]
pub struct ExHeaderName(HeaderName);

/// A validated header value.
#[verifier::external_type_specification]
#[verifier::external_body]
pub struct ExHeaderValue(HeaderValue);

/// A parsed URL of the `url` crate.
#[verifier::external_type_specification]
#[verifier::external_body]
pub struct ExUrl(Url);

/// What a header map holds: for every header name in it, in its normalized
/// spelling, the bytes of the first value stored under that name.
pub uninterp spec fn header_entries(headers: HeaderMap<HeaderValue>) -> Map<Seq<char>, Seq<u8>>;

/// The normalized spelling that a header name stands for.
pub uninterp spec fn header_name_text(name: HeaderName) -> Seq<char>;

/// The bytes of a header value.
pub uninterp spec fn header_value_bytes(value: HeaderValue) -> Seq<u8>;

/// The normalized spelling of a text that is a valid header name, and
/// `None` for a text that is not.
pub uninterp spec fn normalized_header_name(name: Seq<char>) -> Option<Seq<char>>;

/// Whether a byte may occur in a header value: anything but the control
/// characters, of which only the tab is allowed.
pub open spec fn header_byte_allowed(b: u8) -> bool {
    (b >= 32 && b != 127) || b == 9
}

/// Whether a text is a valid header value.
pub open spec fn header_value_allowed(value: Seq<u8>) -> bool {
    forall|i: int| 0 <= i < value.len() ==> header_byte_allowed(#[trigger] value[i])
}

/// The complaint about a text that is no header name.
pub open spec fn invalid_name_complaint() -> Seq<char> {
    "invalid HTTP header name"@
}

/// The complaint about a text that is no header value.
pub open spec fn invalid_value_complaint() -> Seq<char> {
    "failed to parse header value"@
}

/// `Clone` of `HeaderMap`, which the `http` crate derives: the copy is a
/// map equal to the one copied.
pub assume_specification<T: Clone>[ <HeaderMap<T> as Clone>::clone ](headers: &HeaderMap<T>) -> (copy:
    HeaderMap<T>)
    ensures
        copy == *headers,
;

/// `Clone` of `Url`, which the `url` crate derives: the copy is a URL equal
/// to the one copied.
pub assume_specification[ <Url as Clone>::clone ](url: &Url) -> (copy: Url)
    ensures
        copy == *url,
;

/// Calls `HeaderMap::new`: a map without entries.
#[verifier::external_body]
fn new_header_map() -> (r: HeaderMap<HeaderValue>)
    ensures
        (header_entries(r) == Map::<Seq<char>, Seq<u8>>::empty()),
{
    HeaderMap::new()
}

/// Calls `HeaderName::from_bytes` on the text's bytes. A valid name comes
/// back in its normalized spelling; for any other text the error reads
/// "invalid HTTP header name".
#[verifier::external_body]
fn parse_header_name(name: &str) -> (r: Result<HeaderName, String>)
    ensures
        match r {
            Ok(parsed) => normalized_header_name(name@) == Some(header_name_text(parsed)),
            Err(complaint) => normalized_header_name(name@) is None && complaint@
                == invalid_name_complaint(),
        },
{
    match HeaderName::from_bytes(name.as_bytes()) {
        Ok(parsed) => Ok(parsed),
        Err(e) => Err(e.to_string()),
    }
}

/// Calls `HeaderValue::from_str`. The text is accepted exactly when every
/// byte of it is allowed in a header value, and holds those bytes; for any
/// other text the error reads "failed to parse header value".
#[verifier::external_body]
fn parse_header_value(value: &str) -> (r: Result<HeaderValue, String>)
    ensures
        match r {
            Ok(parsed) => header_value_allowed(value.spec_bytes()) && header_value_bytes(parsed)
                == value.spec_bytes(),
            Err(complaint) => !header_value_allowed(value.spec_bytes()) && complaint@
                == invalid_value_complaint(),
        },
{
    match HeaderValue::from_str(value) {
        Ok(parsed) => Ok(parsed),
        Err(e) => Err(e.to_string()),
    }
}

/// Calls `HeaderMap::try_insert`. On success the value is the only one
/// under its name and every other name keeps what it had. The map refuses
/// an entry only when it has grown to its size limit, and is then left as
/// it was.
#[verifier::external_body]
fn try_insert_header(headers: &mut HeaderMap<HeaderValue>, name: HeaderName, value: HeaderValue) -> (inserted: bool)
    ensures
        inserted ==> header_entries(*final(headers)) == header_entries(*old(headers)).insert(
            header_name_text(name),
            header_value_bytes(value),
        ),
        !inserted ==> header_entries(*final(headers)) == header_entries(*old(headers)),
{
    headers.try_insert(name, value).is_ok()
}

/// Whether `after` is what `before` becomes when a header is put into it:
/// a header that is no valid name or value changes nothing; a valid one is
/// stored under its normalized name, unless the map is full.
pub open spec fn header_put(
    before: Map<Seq<char>, Seq<u8>>,
    after: Map<Seq<char>, Seq<u8>>,
    name: Seq<char>,
    value: Seq<u8>,
) -> bool {
    ||| after == before
    ||| {
        &&& normalized_header_name(name) is Some
        &&& header_value_allowed(value)
        &&& after == before.insert(normalized_header_name(name)->Some_0, value)
    }
}

/// Whether `stages` lists what a header map holds before, between and
/// after the headers of `items` are put into it one after the other.
pub open spec fn headers_put(
    stages: Seq<Map<Seq<char>, Seq<u8>>>,
    items: Seq<(Seq<char>, Seq<u8>)>,
) -> bool {
    &&& stages.len() == items.len() + 1
    &&& forall|k: int|
        0 <= k < items.len() ==> header_put(
            #[trigger] stages[k],
            stages[k + 1],
            items[k].0,
            items[k].1,
        )
}

/// The headers that a new configuration sends with every request.
pub open spec fn default_headers(user_agent: Seq<u8>) -> Seq<(Seq<char>, Seq<u8>)> {
    seq![
        ("user-agent"@, user_agent),
        ("Accept"@, "text/html,application/xhtml+xml,application/xml;q=0.9,*/*;q=0.8".spec_bytes()),
        ("Accept-Language"@, "en-US,en;q=0.5".spec_bytes()),
        ("Accept-Encoding"@, "gzip, deflate, br".spec_bytes()),
        ("DNT"@, "1".spec_bytes()),
        ("Connection"@, "keep-alive".spec_bytes()),
        ("Upgrade-Insecure-Requests"@, "1".spec_bytes()),
    ]
}

/// Puts a header into the map if name and value are valid and the map
/// takes it.
fn put_header(headers: &mut HeaderMap<HeaderValue>, name: &str, value: &str)
    ensures
        header_put(
            header_entries(*old(headers)),
            header_entries(*final(headers)),
            name@,
            value.spec_bytes(),
        ),
{
    if let Ok(parsed_name) = parse_header_name(name) {
        if let Ok(parsed_value) = parse_header_value(value) {
            try_insert_header(headers, parsed_name, parsed_value);
        }
    }
}

/// Main configuration.
#[derive(Debug)]
pub struct Config {
    /// Default user agent string.
    pub user_agent: String,
    /// Request timeout.
    pub timeout: Duration,
    /// Maximum number of concurrent requests.
    pub max_concurrent_requests: usize,
    /// Rate limiting configuration.
    pub rate_limit: Option<RateLimit>,
    /// Retry policy for failed requests.
    pub retry_policy: RetryPolicy,
    /// Custom headers to send with every request.
    pub headers: HeaderMap<HeaderValue>,
    /// Whether to follow redirects.
    pub follow_redirects: bool,
    /// Maximum number of redirects to follow.
    pub max_redirects: usize,
    /// Cookie jar configuration.
    pub cookie_jar: bool,
    /// Proxy configuration.
    pub proxy: Option<Url>,
    /// Default HTTP method.
    pub default_method: HttpMethod,
    /// Connection pool size.
    pub connection_pool_size: usize,
    /// Connection timeout.
    pub connect_timeout: Duration,
    /// Keep alive timeout.
    pub keep_alive_timeout: Duration,
    /// TCP keep alive.
    pub tcp_keep_alive: Duration,
    /// HTTP/2 configuration.
    pub http2: bool,
    /// Compression.
    pub compression: bool,
    /// Brotli compression.
    pub brotli: bool,
    /// Gzip compression.
    pub gzip: bool,
    /// Deflate compression.
    pub deflate: bool,
}

/// The user agent of a new configuration.
pub open spec fn default_user_agent() -> Seq<char> {
    "FerrisFetcher/"@ + crate::VERSION@
}

impl Clone for Config {
    /// A configuration with the same settings.
    fn clone(&self) -> (copy: Self)
        ensures
            copy == *self,
    {
        Config {
            user_agent: self.user_agent.clone(),
            timeout: self.timeout,
            max_concurrent_requests: self.max_concurrent_requests,
            rate_limit: self.rate_limit,
            retry_policy: self.retry_policy,
            headers: self.headers.clone(),
            follow_redirects: self.follow_redirects,
            max_redirects: self.max_redirects,
            cookie_jar: self.cookie_jar,
            proxy: match &self.proxy {
                Some(url) => Some(url.clone()),
                None => None,
            },
            default_method: self.default_method,
            connection_pool_size: self.connection_pool_size,
            connect_timeout: self.connect_timeout,
            keep_alive_timeout: self.keep_alive_timeout,
            tcp_keep_alive: self.tcp_keep_alive,
            http2: self.http2,
            compression: self.compression,
            brotli: self.brotli,
            gzip: self.gzip,
            deflate: self.deflate,
        }
    }
}

impl Default for Config {
    fn default() -> (c: Self)
        ensures
            c.spec_is_default(),
            c.spec_problem() is None,
    {
        let user_agent = concat2("FerrisFetcher/", crate::VERSION);
        let mut headers = new_header_map();
        let ghost items = default_headers(vstd::utf8::encode_utf8(user_agent@));
        let ghost m0 = header_entries(headers);
        put_header(&mut headers, "user-agent", user_agent.as_str());
        let ghost m1 = header_entries(headers);
        put_header(
            &mut headers,
            "Accept",
            "text/html,application/xhtml+xml,application/xml;q=0.9,*/*;q=0.8",
        );
        let ghost m2 = header_entries(headers);
        put_header(&mut headers, "Accept-Language", "en-US,en;q=0.5");
        let ghost m3 = header_entries(headers);
        put_header(&mut headers, "Accept-Encoding", "gzip, deflate, br");
        let ghost m4 = header_entries(headers);
        put_header(&mut headers, "DNT", "1");
        let ghost m5 = header_entries(headers);
        put_header(&mut headers, "Connection", "keep-alive");
        let ghost m6 = header_entries(headers);
        put_header(&mut headers, "Upgrade-Insecure-Requests", "1");
        let ghost m7 = header_entries(headers);
        proof {
            let stages = seq![m0, m1, m2, m3, m4, m5, m6, m7];
            assert(headers_put(stages, items));
        }
        Config {
            user_agent,
            timeout: seconds(30),
            max_concurrent_requests: 10,
            rate_limit: Some(RateLimit::default()),
            retry_policy: RetryPolicy::default(),
            headers,
            follow_redirects: true,
            max_redirects: 5,
            cookie_jar: true,
            proxy: None,
            default_method: HttpMethod::Get,
            connection_pool_size: 100,
            connect_timeout: seconds(10),
            keep_alive_timeout: seconds(60),
            tcp_keep_alive: seconds(60),
            http2: true,
            compression: true,
            brotli: true,
            gzip: true,
            deflate: true,
        }
    }
}

impl Config {
    /// Whether these are the settings of a new configuration. The default
    /// headers are put into an empty header map one after the other.
    pub open spec fn spec_is_default(&self) -> bool {
        &&& self.user_agent@ == default_user_agent()
        &&& duration_nanos(self.timeout) == 30_000_000_000
        &&& self.max_concurrent_requests == 10
        &&& self.rate_limit is Some
        &&& self.rate_limit->Some_0.requests_per_period == 10
        &&& duration_nanos(self.rate_limit->Some_0.period) == 60_000_000_000
        &&& duration_nanos(self.rate_limit->Some_0.delay_between_requests) == 1_000_000_000
        &&& self.retry_policy.max_attempts == 3
        &&& duration_nanos(self.retry_policy.base_delay) == 1_000_000_000
        &&& duration_nanos(self.retry_policy.max_delay) == 10_000_000_000
        &&& self.retry_policy.exponential_backoff
        &&& self.retry_policy.backoff_multiplier.thousandths == 2000
        &&& exists|stages: Seq<Map<Seq<char>, Seq<u8>>>|
            {
                &&& #[trigger] headers_put(
                    stages,
                    default_headers(vstd::utf8::encode_utf8(self.user_agent@)),
                )
                &&& stages.first() == Map::<Seq<char>, Seq<u8>>::empty()
                &&& stages.last() == header_entries(self.headers)
            }
        &&& self.follow_redirects
        &&& self.max_redirects == 5
        &&& self.cookie_jar
        &&& self.proxy is None
        &&& self.default_method == HttpMethod::Get
        &&& self.connection_pool_size == 100
        &&& duration_nanos(self.connect_timeout) == 10_000_000_000
        &&& duration_nanos(self.keep_alive_timeout) == 60_000_000_000
        &&& duration_nanos(self.tcp_keep_alive) == 60_000_000_000
        &&& self.http2 && self.compression && self.brotli && self.gzip && self.deflate
    }

    /// What `validate` finds wrong with the settings, if anything. The
    /// checks run in this order.
    pub open spec fn spec_problem(&self) -> Option<Seq<char>> {
        if duration_nanos(self.timeout) == 0 {
            Some("Timeout cannot be zero"@)
        } else if self.max_concurrent_requests == 0 {
            Some("Max concurrent requests must be greater than 0"@)
        } else if self.max_redirects == 0 && self.follow_redirects {
            Some("Max redirects must be greater than 0 when following redirects"@)
        } else if self.rate_limit is Some && self.rate_limit->Some_0.requests_per_period == 0 {
            Some("Rate limit requests per period must be greater than 0"@)
        } else if self.retry_policy.max_attempts == 0 {
            Some("Retry policy max attempts must be greater than 0"@)
        } else {
            None
        }
    }

    /// Create a new default configuration.
    pub fn new() -> (c: Self)
        ensures
            c.spec_is_default(),
            c.spec_problem() is None,
    {
        Self::default()
    }

    /// Set the user agent, and the `user-agent` header with it if the text
    /// is a valid header value.
    pub fn with_user_agent(self, user_agent: &str) -> (c: Self)
        ensures
            c.user_agent@ == user_agent@,
            header_put(
                header_entries(self.headers),
                header_entries(c.headers),
                "user-agent"@,
                user_agent.spec_bytes(),
            ),
            c == (Config { user_agent: c.user_agent, headers: c.headers, ..self }),
    {
        let mut c = self;
        c.user_agent = user_agent.to_owned();
        put_header(&mut c.headers, "user-agent", user_agent);
        c
    }

    /// Set timeout for requests.
    pub fn with_timeout(self, timeout: Duration) -> (c: Self)
        ensures
            c == (Config { timeout, ..self }),
    {
        let mut c = self;
        c.timeout = timeout;
        c
    }

    /// Set maximum concurrent requests.
    pub fn with_max_concurrent_requests(self, max: usize) -> (c: Self)
        ensures
            c == (Config { max_concurrent_requests: max, ..self }),
    {
        let mut c = self;
        c.max_concurrent_requests = max;
        c
    }

    /// Set rate limiting.
    pub fn with_rate_limit(self, rate_limit: RateLimit) -> (c: Self)
        ensures
            c == (Config { rate_limit: Some(rate_limit), ..self }),
    {
        let mut c = self;
        c.rate_limit = Some(rate_limit);
        c
    }

    /// Disable rate limiting.
    pub fn without_rate_limit(self) -> (c: Self)
        ensures
            c == (Config { rate_limit: None, ..self }),
    {
        let mut c = self;
        c.rate_limit = None;
        c
    }

    /// Set retry policy.
    pub fn with_retry_policy(self, retry_policy: RetryPolicy) -> (c: Self)
        ensures
            c == (Config { retry_policy, ..self }),
    {
        let mut c = self;
        c.retry_policy = retry_policy;
        c
    }

    /// Add a custom header. A text that is no header name, or no header
    /// value, is rejected; so is a header that the map has no room for.
    pub fn with_header(self, name: &str, value: &str) -> (r: Result<Self, FerrisFetcherError>)
        ensures
            match r {
                Ok(c) => {
                    &&& normalized_header_name(name@) is Some
                    &&& header_value_allowed(value.spec_bytes())
                    &&& header_entries(c.headers) == header_entries(self.headers).insert(
                        normalized_header_name(name@)->Some_0,
                        value.spec_bytes(),
                    )
                    &&& c == (Config { headers: c.headers, ..self })
                },
                Err(e) => e is ConfigError && e->ConfigError_0@ == if normalized_header_name(
                    name@,
                ) is None {
                    "Invalid header name '"@ + name@ + "': "@ + invalid_name_complaint()
                } else if !header_value_allowed(value.spec_bytes()) {
                    "Invalid header value for '"@ + name@ + "': "@ + invalid_value_complaint()
                } else {
                    "Too many headers"@
                },
            },
    {
        let header_name = match parse_header_name(name) {
            Ok(parsed) => parsed,
            Err(complaint) => {
                return Err(
                    FerrisFetcherError::ConfigError(
                        concat4("Invalid header name '", name, "': ", complaint.as_str()),
                    ),
                );
            },
        };
        let header_value = match parse_header_value(value) {
            Ok(parsed) => parsed,
            Err(complaint) => {
                return Err(
                    FerrisFetcherError::ConfigError(
                        concat4("Invalid header value for '", name, "': ", complaint.as_str()),
                    ),
                );
            },
        };
        let mut c = self;
        if try_insert_header(&mut c.headers, header_name, header_value) {
            Ok(c)
        } else {
            Err(FerrisFetcherError::ConfigError("Too many headers".to_owned()))
        }
    }

    /// Set proxy URL.
    pub fn with_proxy(self, proxy: Url) -> (c: Self)
        ensures
            c == (Config { proxy: Some(proxy), ..self }),
    {
        let mut c = self;
        c.proxy = Some(proxy);
        c
    }

    /// Disable following redirects.
    pub fn without_redirects(self) -> (c: Self)
        ensures
            c == (Config { follow_redirects: false, ..self }),
    {
        let mut c = self;
        c.follow_redirects = false;
        c
    }

    /// Set maximum number of redirects.
    pub fn with_max_redirects(self, max: usize) -> (c: Self)
        ensures
            c == (Config { max_redirects: max, ..self }),
    {
        let mut c = self;
        c.max_redirects = max;
        c
    }

    /// Disable cookie jar.
    pub fn without_cookies(self) -> (c: Self)
        ensures
            c == (Config { cookie_jar: false, ..self }),
    {
        let mut c = self;
        c.cookie_jar = false;
        c
    }

    /// Set default HTTP method.
    pub fn with_default_method(self, method: HttpMethod) -> (c: Self)
        ensures
            c == (Config { default_method: method, ..self }),
    {
        let mut c = self;
        c.default_method = method;
        c
    }

    /// Set connection pool size.
    pub fn with_connection_pool_size(self, size: usize) -> (c: Self)
        ensures
            c == (Config { connection_pool_size: size, ..self }),
    {
        let mut c = self;
        c.connection_pool_size = size;
        c
    }

    /// Disable HTTP/2.
    pub fn without_http2(self) -> (c: Self)
        ensures
            c == (Config { http2: false, ..self }),
    {
        let mut c = self;
        c.http2 = false;
        c
    }

    /// Disable compression.
    pub fn without_compression(self) -> (c: Self)
        ensures
            c == (Config {
                compression: false,
                brotli: false,
                gzip: false,
                deflate: false,
                ..self
            }),
    {
        let mut c = self;
        c.compression = false;
        c.brotli = false;
        c.gzip = false;
        c.deflate = false;
        c
    }

    /// Validate the configuration. The first setting found wrong is
    /// reported.
    pub fn validate(&self) -> (r: Result<(), FerrisFetcherError>)
        ensures
            match r {
                Ok(_) => self.spec_problem() is None,
                Err(e) => e is ConfigError && self.spec_problem() == Some(e->ConfigError_0@),
            },
    {
        if is_zero(&self.timeout) {
            return Err(FerrisFetcherError::ConfigError("Timeout cannot be zero".to_owned()));
        }
        if self.max_concurrent_requests == 0 {
            return Err(
                FerrisFetcherError::ConfigError(
                    "Max concurrent requests must be greater than 0".to_owned(),
                ),
            );
        }
        if self.max_redirects == 0 && self.follow_redirects {
            return Err(
                FerrisFetcherError::ConfigError(
                    "Max redirects must be greater than 0 when following redirects".to_owned(),
                ),
            );
        }
        if let Some(rate_limit) = &self.rate_limit {
            if rate_limit.requests_per_period == 0 {
                return Err(
                    FerrisFetcherError::ConfigError(
                        "Rate limit requests per period must be greater than 0".to_owned(),
                    ),
                );
            }
        }
        if self.retry_policy.max_attempts == 0 {
            return Err(
                FerrisFetcherError::ConfigError(
                    "Retry policy max attempts must be greater than 0".to_owned(),
                ),
            );
        }
        Ok(())
    }
}

} // verus!
