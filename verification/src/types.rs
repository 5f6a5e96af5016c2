//! Common data types and structures.

use crate::string_map::StringMap;
use crate::time::{
    duration_nanos, from_nanos, max_duration_nanos, milliseconds, seconds, spec_whole_millis,
    whole_millis,
};
use std::time::Duration;
use vstd::arithmetic::power::pow;
use vstd::prelude::*;

verus! {

/// The characters of an optional string.
pub open spec fn optional_text(s: Option<String>) -> Option<Seq<char>> {
    match s {
        Some(text) => Some(text@),
        None => None,
    }
}

/// Types of data extraction.
#[derive(Debug, Clone, Copy, PartialEq, Eq, Structural)]
pub enum ExtractionType {
    /// Extract text content.
    Text,
    /// Extract HTML content.
    Html,
    /// Extract a specific attribute.
    Attribute,
    /// Extract the element's own HTML.
    OuterHtml,
}

/// Rule for extracting data from HTML.
#[derive(Debug, Clone)]
pub struct ExtractionRule {
    /// Name of the extraction rule.
    pub name: String,
    /// CSS selector to target elements.
    pub selector: String,
    /// What to extract from matched elements.
    pub extraction_type: ExtractionType,
    /// Whether to extract multiple values or just the first.
    pub multiple: bool,
    /// Optional attribute to extract (for Attribute extraction type).
    pub attribute: Option<String>,
}

/// What a rule says, as plain mathematical values.
pub ghost struct RuleModel {
    pub name: Seq<char>,
    pub selector: Seq<char>,
    pub extraction_type: ExtractionType,
    pub multiple: bool,
    pub attribute: Option<Seq<char>>,
}

impl View for ExtractionRule {
    type V = RuleModel;

    open spec fn view(&self) -> RuleModel {
        RuleModel {
            name: self.name@,
            selector: self.selector@,
            extraction_type: self.extraction_type,
            multiple: self.multiple,
            attribute: optional_text(self.attribute),
        }
    }
}

impl ExtractionRule {
    /// A copy of this rule.
    pub fn duplicate(&self) -> (r: ExtractionRule)
        ensures
            r == *self,
    {
        ExtractionRule {
            name: self.name.clone(),
            selector: self.selector.clone(),
            extraction_type: self.extraction_type,
            multiple: self.multiple,
            attribute: match &self.attribute {
                Some(a) => Some(a.clone()),
                None => None,
            },
        }
    }
}

/// HTTP method types.
#[derive(Debug, Clone, Copy, PartialEq, Eq, Structural)]
pub enum HttpMethod {
    Get,
    Post,
    Put,
    Delete,
    Head,
    Options,
    Patch,
}

impl Default for HttpMethod {
    fn default() -> (m: Self)
        ensures
            m == HttpMethod::Get,
    {
        HttpMethod::Get
    }
}

/// A growth factor, held in thousandths: 2000 stands for 2, 1500 for 1.5.
#[derive(Debug, Clone, Copy, PartialEq, Eq, Structural)]
pub struct Multiplier {
    pub thousandths: u32,
}

impl Multiplier {
    /// The thousandths of the whole factor `n`, as far as they fit.
    pub open spec fn spec_whole(n: u32) -> Multiplier {
        Multiplier {
            thousandths: if n * 1000 <= u32::MAX {
                (n * 1000) as u32
            } else {
                u32::MAX
            },
        }
    }

    /// The whole factor `n`. A factor beyond 4,294,967 is taken as the
    /// largest factor there is.
    pub fn whole(n: u32) -> (m: Multiplier)
        ensures
            m == Multiplier::spec_whole(n),
    {
        if n <= 4_294_967 {
            Multiplier { thousandths: n * 1000 }
        } else {
            Multiplier { thousandths: u32::MAX }
        }
    }

    /// The factor of so many thousandths.
    pub fn from_thousandths(thousandths: u32) -> (m: Multiplier)
        ensures
            m.thousandths == thousandths,
    {
        Multiplier { thousandths }
    }
}

/// Configuration for retry policies.
#[derive(Debug, Clone, Copy)]
pub struct RetryPolicy {
    /// Maximum number of attempts.
    pub max_attempts: u32,
    /// Base delay between retries.
    pub base_delay: Duration,
    /// Maximum delay between retries.
    pub max_delay: Duration,
    /// Whether to use exponential backoff.
    pub exponential_backoff: bool,
    /// Factor by which the delay grows from one attempt to the next under
    /// exponential backoff.
    pub backoff_multiplier: Multiplier,
}

impl Default for RetryPolicy {
    fn default() -> (p: Self)
        ensures
            p.max_attempts == 3,
            duration_nanos(p.base_delay) == 1_000_000_000,
            duration_nanos(p.max_delay) == 10_000_000_000,
            p.exponential_backoff,
            p.backoff_multiplier.thousandths == 2000,
    {
        RetryPolicy {
            max_attempts: 3,
            base_delay: milliseconds(1000),
            max_delay: milliseconds(10000),
            exponential_backoff: true,
            backoff_multiplier: Multiplier::whole(2),
        }
    }
}

/// A delay of `base` nanoseconds after it has grown `steps` times by a
/// factor of so many thousandths. Every step is rounded down to a whole
/// nanosecond.
pub open spec fn grown_nanos(base: nat, thousandths: nat, steps: nat) -> nat
    decreases steps,
{
    if steps == 0 {
        base
    } else {
        grown_nanos(base, thousandths, (steps - 1) as nat) * thousandths / 1000
    }
}

/// Under a whole factor nothing is rounded: the delay is the base delay
/// times the factor raised to the number of steps.
pub proof fn lemma_whole_factor_grows_by_powers(base: nat, factor: nat, steps: nat)
    ensures
        grown_nanos(base, 1000 * factor, steps) == base * pow(factor as int, steps),
    decreases steps,
{
    reveal(pow);
    if steps == 0 {
        assert(base * 1 == base);
    } else {
        let earlier = grown_nanos(base, 1000 * factor, (steps - 1) as nat);
        lemma_whole_factor_grows_by_powers(base, factor, (steps - 1) as nat);
        assert(earlier * (1000 * factor) / 1000 == earlier * factor) by (nonlinear_arith);
        assert(pow(factor as int, steps) == factor * pow(factor as int, (steps - 1) as nat));
        assert((base * pow(factor as int, (steps - 1) as nat)) * factor == base * (factor * pow(
            factor as int,
            (steps - 1) as nat,
        ))) by (nonlinear_arith);
    }
}

/// Under a factor of one or more a delay never shrinks.
pub proof fn lemma_grown_never_shrinks(base: nat, thousandths: nat, earlier: nat, later: nat)
    requires
        thousandths >= 1000,
        earlier <= later,
    ensures
        grown_nanos(base, thousandths, earlier) <= grown_nanos(base, thousandths, later),
    decreases later,
{
    if earlier < later {
        let before = grown_nanos(base, thousandths, (later - 1) as nat);
        lemma_grown_never_shrinks(base, thousandths, earlier, (later - 1) as nat);
        assert(before * thousandths / 1000 >= before) by (nonlinear_arith)
            requires
                thousandths >= 1000,
        ;
    }
}

/// Under a factor of one or less a delay never grows beyond the base delay.
pub proof fn lemma_grown_never_exceeds_base(base: nat, thousandths: nat, steps: nat)
    requires
        thousandths <= 1000,
    ensures
        grown_nanos(base, thousandths, steps) <= base,
    decreases steps,
{
    if steps > 0 {
        let before = grown_nanos(base, thousandths, (steps - 1) as nat);
        lemma_grown_never_exceeds_base(base, thousandths, (steps - 1) as nat);
        assert(before * thousandths / 1000 <= before) by (nonlinear_arith)
            requires
                thousandths <= 1000,
        ;
    }
}

/// A delay that a step leaves as it is stays as it is.
pub proof fn lemma_grown_stays(base: nat, thousandths: nat, reached: nat, later: nat)
    requires
        reached <= later,
        grown_nanos(base, thousandths, reached + 1) == grown_nanos(base, thousandths, reached),
    ensures
        grown_nanos(base, thousandths, later) == grown_nanos(base, thousandths, reached),
    decreases later,
{
    if reached < later {
        lemma_grown_stays(base, thousandths, reached, (later - 1) as nat);
    }
}

impl RetryPolicy {
    /// The delay before the retry that follows attempt `attempt` (counted
    /// from 1), in nanoseconds: under exponential backoff the base delay
    /// grown `attempt - 1` times by the multiplier, capped at the maximum
    /// delay; otherwise the base delay.
    pub open spec fn spec_backoff_nanos(&self, attempt: nat) -> nat
        recommends
            attempt >= 1,
    {
        if self.exponential_backoff {
            let grown = grown_nanos(
                duration_nanos(self.base_delay),
                self.backoff_multiplier.thousandths as nat,
                (attempt - 1) as nat,
            );
            if grown <= duration_nanos(self.max_delay) {
                grown
            } else {
                duration_nanos(self.max_delay)
            }
        } else {
            duration_nanos(self.base_delay)
        }
    }

    /// Under a whole multiplier the delay is the base delay times the
    /// multiplier raised to `attempt - 1`, capped at the maximum delay.
    pub proof fn lemma_backoff_of_whole_multiplier(&self, factor: nat, attempt: nat)
        requires
            attempt >= 1,
            self.exponential_backoff,
            self.backoff_multiplier.thousandths == 1000 * factor,
        ensures
            self.spec_backoff_nanos(attempt) == if duration_nanos(self.base_delay) * pow(
                factor as int,
                (attempt - 1) as nat,
            ) <= duration_nanos(self.max_delay) {
                duration_nanos(self.base_delay) * pow(factor as int, (attempt - 1) as nat)
            } else {
                duration_nanos(self.max_delay) as int
            },
    {
        lemma_whole_factor_grows_by_powers(
            duration_nanos(self.base_delay),
            factor,
            (attempt - 1) as nat,
        );
    }

    /// The delay before the retry that follows attempt `attempt` (counted
    /// from 1).
    pub fn backoff_delay(&self, attempt: u32) -> (d: Duration)
        requires
            attempt >= 1,
        ensures
            duration_nanos(d) == self.spec_backoff_nanos(attempt as nat),
    {
        if !self.exponential_backoff {
            return self.base_delay;
        }
        let base: u128 = self.base_delay.as_nanos();
        let max: u128 = self.max_delay.as_nanos();
        let factor: u128 = self.backoff_multiplier.thousandths as u128;
        let steps: u32 = attempt - 1;
        let mut grown: u128 = base;
        let mut done: u32 = 0;
        while done < steps
            invariant
                done <= steps,
                attempt >= 1,
                steps == attempt - 1,
                self.exponential_backoff,
                factor == self.backoff_multiplier.thousandths,
                base == duration_nanos(self.base_delay),
                max == duration_nanos(self.max_delay),
                base <= max_duration_nanos(),
                max <= max_duration_nanos(),
                grown == grown_nanos(base as nat, factor as nat, done as nat),
                factor <= 1000 ==> grown <= base,
            decreases steps - done,
        {
            if factor >= 1000 && grown > max {
                proof {
                    lemma_grown_never_shrinks(
                        base as nat,
                        factor as nat,
                        done as nat,
                        steps as nat,
                    );
                }
                return self.max_delay;
            }
            proof {
                assert(grown * factor <= max_duration_nanos() * 4_294_967_295)
                    by (nonlinear_arith)
                    requires
                        grown <= max_duration_nanos(),
                        factor <= 4_294_967_295,
                ;
                if factor <= 1000 {
                    lemma_grown_never_exceeds_base(base as nat, factor as nat, (done + 1) as nat);
                }
            }
            let next: u128 = grown * factor / 1000;
            assert(next == grown_nanos(base as nat, factor as nat, (done + 1) as nat));
            if next == grown {
                proof {
                    lemma_grown_stays(base as nat, factor as nat, done as nat, steps as nat);
                }
                return if grown <= max {
                    from_nanos(grown)
                } else {
                    self.max_delay
                };
            }
            grown = next;
            done = done + 1;
        }
        if grown <= max {
            from_nanos(grown)
        } else {
            self.max_delay
        }
    }
}

/// Rate limiting configuration.
#[derive(Debug, Clone, Copy)]
pub struct RateLimit {
    /// Number of requests allowed per period.
    pub requests_per_period: u32,
    /// Time period for rate limiting.
    pub period: Duration,
    /// Delay between requests to stay within limits.
    pub delay_between_requests: Duration,
}

impl Default for RateLimit {
    fn default() -> (r: Self)
        ensures
            r.requests_per_period == 10,
            duration_nanos(r.period) == 60_000_000_000,
            duration_nanos(r.delay_between_requests) == 1_000_000_000,
    {
        RateLimit {
            requests_per_period: 10,
            period: seconds(60),
            delay_between_requests: milliseconds(1000),
        }
    }
}

/// An exact quotient of two counts. The denominator is never zero.
#[derive(Debug, Clone, Copy, PartialEq, Eq, Structural)]
pub struct Fraction {
    pub numerator: u64,
    pub denominator: u64,
}

/// `part` out of `whole`, or zero out of one when there is nothing to
/// divide by.
pub open spec fn fraction_of(part: u64, whole: u64) -> Fraction {
    if whole == 0 {
        Fraction { numerator: 0, denominator: 1 }
    } else {
        Fraction { numerator: part, denominator: whole }
    }
}

/// `a + b`, capped at `u64::MAX`.
pub open spec fn capped_sum(a: u64, b: u64) -> u64 {
    if a + b <= u64::MAX {
        (a + b) as u64
    } else {
        u64::MAX
    }
}

/// Request statistics.
#[derive(Debug, Clone, Copy, PartialEq, Eq, Structural)]
pub struct RequestStats {
    /// Total number of requests made.
    pub total_requests: u64,
    /// Number of successful requests.
    pub successful_requests: u64,
    /// Number of failed requests.
    pub failed_requests: u64,
    /// Total bytes downloaded.
    pub total_bytes: u64,
    /// Total time spent scraping, in milliseconds.
    pub total_time_ms: u64,
}

impl Default for RequestStats {
    fn default() -> (s: Self)
        ensures
            s == RequestStats::spec_new(),
    {
        RequestStats::new()
    }
}

impl RequestStats {
    /// Statistics with nothing recorded.
    pub open spec fn spec_new() -> RequestStats {
        RequestStats {
            total_requests: 0,
            successful_requests: 0,
            failed_requests: 0,
            total_bytes: 0,
            total_time_ms: 0,
        }
    }

    /// The statistics after one more request has been recorded. Every
    /// counter stops at `u64::MAX`.
    pub open spec fn spec_record(self, success: bool, elapsed_ms: u64, bytes: Option<u64>) -> RequestStats {
        RequestStats {
            total_requests: capped_sum(self.total_requests, 1),
            successful_requests: if success {
                capped_sum(self.successful_requests, 1)
            } else {
                self.successful_requests
            },
            failed_requests: if success {
                self.failed_requests
            } else {
                capped_sum(self.failed_requests, 1)
            },
            total_bytes: match bytes {
                Some(n) => capped_sum(self.total_bytes, n),
                None => self.total_bytes,
            },
            total_time_ms: capped_sum(self.total_time_ms, elapsed_ms),
        }
    }

    /// The statistics after a request that took `elapsed` has failed.
    pub open spec fn spec_failed(self, elapsed: Duration) -> RequestStats {
        self.spec_record(false, spec_whole_millis(elapsed) as u64, None)
    }

    /// A request that fails is counted once: the total and the failures
    /// grow by one, the successes and the bytes stay, and the time it took
    /// is added. (Every counter stops at `u64::MAX`.)
    pub proof fn lemma_failure_is_counted(self, elapsed: Duration)
        requires
            self.total_requests < u64::MAX,
            self.failed_requests < u64::MAX,
        ensures
            self.spec_failed(elapsed).total_requests == self.total_requests + 1,
            self.spec_failed(elapsed).failed_requests == self.failed_requests + 1,
            self.spec_failed(elapsed).successful_requests == self.successful_requests,
            self.spec_failed(elapsed).total_bytes == self.total_bytes,
            self.spec_failed(elapsed).total_time_ms == capped_sum(
                self.total_time_ms,
                spec_whole_millis(elapsed) as u64,
            ),
    {
    }

    /// The share of recorded requests that succeeded.
    pub open spec fn spec_success_rate(&self) -> Fraction {
        fraction_of(self.successful_requests, self.total_requests)
    }

    /// The mean time per recorded request, in milliseconds.
    pub open spec fn spec_avg_response_time_ms(&self) -> Fraction {
        fraction_of(self.total_time_ms, self.total_requests)
    }

    /// Create new request stats.
    pub fn new() -> (s: Self)
        ensures
            s == RequestStats::spec_new(),
    {
        RequestStats {
            total_requests: 0,
            successful_requests: 0,
            failed_requests: 0,
            total_bytes: 0,
            total_time_ms: 0,
        }
    }

    /// Records the outcome of one request.
    pub fn record(&mut self, success: bool, elapsed: Duration, bytes: Option<u64>)
        ensures
            *final(self) == old(self).spec_record(success, spec_whole_millis(elapsed) as u64, bytes),
            final(self).total_requests >= old(self).total_requests,
            final(self).successful_requests >= old(self).successful_requests,
            final(self).failed_requests >= old(self).failed_requests,
            final(self).total_bytes >= old(self).total_bytes,
            final(self).total_time_ms >= old(self).total_time_ms,
    {
        self.total_requests = self.total_requests.saturating_add(1);
        if success {
            self.successful_requests = self.successful_requests.saturating_add(1);
        } else {
            self.failed_requests = self.failed_requests.saturating_add(1);
        }
        if let Some(n) = bytes {
            self.total_bytes = self.total_bytes.saturating_add(n);
        }
        self.total_time_ms = self.total_time_ms.saturating_add(whole_millis(&elapsed));
    }

    /// Forgets everything recorded so far.
    pub fn reset(&mut self)
        ensures
            *final(self) == RequestStats::spec_new(),
            final(self).total_requests == 0,
            final(self).spec_success_rate().numerator == 0,
            final(self).spec_success_rate().denominator == 1,
    {
        *self = RequestStats::new();
    }

    /// Calculate success rate: successful requests out of all requests, and
    /// zero out of one while nothing has been recorded.
    pub fn success_rate(&self) -> (r: Fraction)
        ensures
            r == self.spec_success_rate(),
            r.denominator > 0,
            self.total_requests > 0 ==> r.numerator == self.successful_requests && r.denominator
                == self.total_requests,
            self.total_requests == 0 ==> r.numerator == 0,
    {
        if self.total_requests == 0 {
            Fraction { numerator: 0, denominator: 1 }
        } else {
            Fraction { numerator: self.successful_requests, denominator: self.total_requests }
        }
    }

    /// Average response time in milliseconds: total time out of all
    /// requests, and zero out of one while nothing has been recorded.
    pub fn avg_response_time_ms(&self) -> (r: Fraction)
        ensures
            r == self.spec_avg_response_time_ms(),
            r.denominator > 0,
    {
        if self.total_requests == 0 {
            Fraction { numerator: 0, denominator: 1 }
        } else {
            Fraction { numerator: self.total_time_ms, denominator: self.total_requests }
        }
    }
}

/// Calls `chrono::Utc::now` and gives the moment as milliseconds since the
/// start of 1970 (UTC). Nothing is promised of a clock.
#[verifier::external_body]
fn current_timestamp_millis() -> (millis: i64) {
    chrono::Utc::now().timestamp_millis()
}

/// A piece of page metadata.
#[derive(Debug, Clone)]
pub enum MetadataValue {
    /// A text, such as a description.
    Text(String),
    /// A count, such as the number of links.
    Count(u64),
    /// JSON documents, each as its text.
    Documents(Vec<String>),
}

/// A piece of metadata as plain mathematical values.
pub ghost enum MetadataModel {
    Text(Seq<char>),
    Count(u64),
    Documents(Seq<Seq<char>>),
}

impl View for MetadataValue {
    type V = MetadataModel;

    open spec fn view(&self) -> MetadataModel {
        match *self {
            MetadataValue::Text(t) => MetadataModel::Text(t@),
            MetadataValue::Count(n) => MetadataModel::Count(n),
            MetadataValue::Documents(d) => MetadataModel::Documents(d.deep_view()),
        }
    }
}

/// What a metadata map holds, as plain mathematical values.
pub open spec fn metadata_model(metadata: Map<Seq<char>, MetadataValue>) -> Map<
    Seq<char>,
    MetadataModel,
> {
    Map::new(|k: Seq<char>| metadata.contains_key(k), |k: Seq<char>| metadata[k]@)
}

/// Main structure containing scraped data from a web page.
#[derive(Debug, Clone)]
pub struct ScrapedData {
    /// The URL that was scraped.
    pub url: String,
    /// Page title if available.
    pub title: Option<String>,
    /// Raw HTML content.
    pub content: String,
    /// Extracted metadata.
    pub metadata: StringMap<MetadataValue>,
    /// Structured data extracted using rules.
    pub extracted_data: StringMap<Vec<String>>,
    /// When the scraping occurred, in milliseconds since the start of 1970
    /// (UTC).
    pub timestamp: i64,
    /// HTTP status code.
    pub status_code: u16,
    /// Response headers.
    pub headers: StringMap<String>,
    /// Time taken to scrape (in milliseconds).
    pub scrape_time_ms: u64,
}

impl ScrapedData {
    /// Create new scraped data: nothing but the URL and the time of the
    /// call.
    pub fn new(url: String) -> (data: Self)
        ensures
            data.url == url,
            data.title is None,
            data.content@ == Seq::<char>::empty(),
            data.metadata@ == Map::<Seq<char>, MetadataValue>::empty(),
            data.extracted_data@ == Map::<Seq<char>, Vec<String>>::empty(),
            data.status_code == 0,
            data.headers@ == Map::<Seq<char>, String>::empty(),
            data.scrape_time_ms == 0,
    {
        ScrapedData {
            url,
            title: None,
            content: String::new(),
            metadata: StringMap::new(),
            extracted_data: StringMap::new(),
            timestamp: current_timestamp_millis(),
            status_code: 0,
            headers: StringMap::new(),
            scrape_time_ms: 0,
        }
    }

    /// Add extracted data with a key.
    pub fn add_extracted_data(&mut self, key: &str, values: Vec<String>)
        ensures
            final(self).extracted_data@ == old(self).extracted_data@.insert(key@, values),
            *final(self) == (ScrapedData {
                extracted_data: final(self).extracted_data,
                ..*old(self)
            }),
    {
        self.extracted_data.insert(key.to_owned(), values);
    }

    /// Add metadata.
    pub fn add_metadata(&mut self, key: &str, value: MetadataValue)
        ensures
            final(self).metadata@ == old(self).metadata@.insert(key@, value),
            *final(self) == (ScrapedData { metadata: final(self).metadata, ..*old(self) }),
    {
        self.metadata.insert(key.to_owned(), value);
    }

    /// Get all extracted values for a key.
    pub fn get_extracted_values(&self, key: &str) -> (r: Option<&Vec<String>>)
        ensures
            match r {
                Some(values) => self.extracted_data@.contains_key(key@) && *values
                    == self.extracted_data@[key@],
                None => !self.extracted_data@.contains_key(key@),
            },
    {
        self.extracted_data.get(key)
    }

    /// Get the first extracted value for a key.
    pub fn get_first_value(&self, key: &str) -> (r: Option<&String>)
        ensures
            match r {
                Some(value) => self.extracted_data@.contains_key(key@)
                    && self.extracted_data@[key@].len() > 0 && *value
                    == self.extracted_data@[key@][0],
                None => !self.extracted_data@.contains_key(key@) || self.extracted_data@[key@].len()
                    == 0,
            },
    {
        match self.extracted_data.get(key) {
            Some(values) => {
                if values.len() > 0 {
                    Some(&values[0])
                } else {
                    None
                }
            },
            None => None,
        }
    }
}

} // verus!
