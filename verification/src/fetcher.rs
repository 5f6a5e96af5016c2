//! The high-level scraping interface: what to do with a fetched page, and
//! how to fan a batch of fetches out under the concurrency ceiling.

use crate::client::HttpClient;
use crate::config::{
    header_entries, header_put, header_value_allowed, normalized_header_name, Config,
};
use crate::error::FerrisFetcherError;
use crate::extractor::{rule_values, DataExtractor};
use crate::html_parser::{attributes_of, json_texts_of, HtmlParser};
use crate::string_map::StringMap;
use crate::types::{
    metadata_model, optional_text, ExtractionRule, MetadataModel, MetadataValue, RequestStats,
    RetryPolicy, ScrapedData,
};
use std::time::Duration;
use url::Url;
use vstd::prelude::*;
use vstd::string::*;

verus! {

/// What the transport delivered for one URL.
#[derive(Debug)]
pub struct FetchedPage {
    /// HTTP status code.
    pub status_code: u16,
    /// Response headers.
    pub headers: StringMap<String>,
    /// The body, as text.
    pub content: String,
    /// Time taken by the fetch, in milliseconds.
    pub elapsed_ms: u64,
}

/// `metadata` with a text stored under `key`, if there is one.
pub open spec fn with_text(
    metadata: Map<Seq<char>, MetadataModel>,
    key: Seq<char>,
    value: Option<Seq<char>>,
) -> Map<Seq<char>, MetadataModel> {
    match value {
        Some(text) => metadata.insert(key, MetadataModel::Text(text)),
        None => metadata,
    }
}

/// `metadata` with the JSON-LD documents of the page, if it has any.
pub open spec fn with_documents(
    metadata: Map<Seq<char>, MetadataModel>,
    documents: Seq<Seq<char>>,
) -> Map<Seq<char>, MetadataModel> {
    if documents.len() > 0 {
        metadata.insert("json_ld"@, MetadataModel::Documents(documents))
    } else {
        metadata
    }
}

/// The metadata of a page, added to `before`: description, keywords and
/// canonical URL where the page states them, its JSON-LD documents if it has
/// any, and the numbers of its links, images and forms.
pub open spec fn basic_metadata(parser: HtmlParser, before: Map<Seq<char>, MetadataModel>) -> Map<
    Seq<char>,
    MetadataModel,
> {
    let described = with_text(before, "description"@, parser.spec_description());
    let keyed = with_text(described, "keywords"@, parser.spec_meta("name"@, "keywords"@));
    let located = with_text(
        keyed,
        "canonical_url"@,
        parser.spec_first_attr("link[rel='canonical']"@, "href"@),
    );
    let documented = with_documents(
        located,
        json_texts_of(parser.lenient_matches("script[type='application/ld+json']"@)),
    );
    documented.insert(
        "links_count"@,
        MetadataModel::Count(
            attributes_of(parser.lenient_matches("a[href]"@), "href"@).len() as u64,
        ),
    ).insert(
        "images_count"@,
        MetadataModel::Count(
            attributes_of(parser.lenient_matches("img[src]"@), "src"@).len() as u64,
        ),
    ).insert("forms_count"@, MetadataModel::Count(parser.spec_forms().len() as u64))
}

/// Storing a value stores its model.
proof fn lemma_model_insert(
    before: Map<Seq<char>, MetadataValue>,
    key: Seq<char>,
    value: MetadataValue,
)
    ensures
        metadata_model(before.insert(key, value)) == metadata_model(before).insert(key, value@),
{
    assert(metadata_model(before.insert(key, value)) =~= metadata_model(before).insert(
        key,
        value@,
    ));
}

/// Main scraper interface.
#[derive(Debug)]
pub struct FerrisFetcher {
    /// The client's decisions.
    client: HttpClient,
    /// Data extraction engine.
    extractor: DataExtractor,
}

impl FerrisFetcher {
    /// The client.
    pub closed spec fn spec_client(&self) -> HttpClient {
        self.client
    }

    /// The extraction engine.
    pub closed spec fn spec_extractor(&self) -> DataExtractor {
        self.extractor
    }

    /// Create a new FerrisFetcher with default configuration.
    pub fn new() -> (r: Result<Self, FerrisFetcherError>)
        ensures
            r is Ok,
            r->Ok_0.spec_extractor().spec_rules().keys() == Seq::<Seq<char>>::empty(),
            r->Ok_0.spec_client().spec_config().spec_is_default(),
            r->Ok_0.spec_client().spec_stats() == RequestStats::spec_new(),
    {
        let config = Config::default();
        Self::with_config(config)
    }

    /// Create a new FerrisFetcher with custom configuration, which must be
    /// valid.
    pub fn with_config(config: Config) -> (r: Result<Self, FerrisFetcherError>)
        ensures
            match r {
                Ok(fetcher) => {
                    &&& config.spec_problem() is None
                    &&& fetcher.spec_client().spec_config() == config
                    &&& fetcher.spec_client().spec_stats() == RequestStats::spec_new()
                    &&& fetcher.spec_extractor().spec_rules().keys() == Seq::<Seq<char>>::empty()
                },
                Err(e) => e@ is ConfigError && config.spec_problem() == Some(e@->ConfigError_0),
            },
    {
        let client = HttpClient::new(config)?;
        let extractor = DataExtractor::new();
        Ok(FerrisFetcher { client, extractor })
    }

    /// Create a new FerrisFetcher with custom configuration, which must be
    /// valid, and extraction rules.
    pub fn with_config_and_rules(config: Config, rules: Vec<ExtractionRule>) -> (r: Result<
        Self,
        FerrisFetcherError,
    >)
        ensures
            match r {
                Ok(fetcher) => {
                    &&& config.spec_problem() is None
                    &&& fetcher.spec_client().spec_config() == config
                    &&& fetcher.spec_client().spec_stats() == RequestStats::spec_new()
                    &&& fetcher.spec_extractor().spec_rules().keys() == crate::extractor::keys_after(
                        rules@,
                    )
                    &&& fetcher.spec_extractor().spec_rules().values()
                        == crate::extractor::rules_after(rules@)
                },
                Err(e) => e@ is ConfigError && config.spec_problem() == Some(e@->ConfigError_0),
            },
    {
        let client = HttpClient::new(config)?;
        let extractor = DataExtractor::with_rules(rules);
        Ok(FerrisFetcher { client, extractor })
    }

    /// The client, to read its settings and statistics.
    pub fn client(&self) -> (c: &HttpClient)
        ensures
            *c == self.spec_client(),
    {
        &self.client
    }

    /// The client, to drive admission and record outcomes.
    pub fn client_mut(&mut self) -> (c: &mut HttpClient)
        ensures
            *c == old(self).spec_client(),
            final(self).spec_client() == *final(c),
            final(self).spec_extractor() == old(self).spec_extractor(),
    {
        &mut self.client
    }

    /// Makes the record of a fetched page: parses the body, notes the
    /// page's metadata and applies the extraction rules. A rule that fails
    /// or finds nothing leaves no entry; the call itself never fails.
    pub fn build_record(&self, url: &str, page: FetchedPage) -> (r: Result<
        ScrapedData,
        FerrisFetcherError,
    >)
        ensures
            r is Ok,
            ({
                let data = r->Ok_0;
                let parser = HtmlParser::spec_parse(page.content@);
                &&& data.url@ == url@
                &&& data.status_code == page.status_code
                &&& data.headers == page.headers
                &&& data.content == page.content
                &&& data.scrape_time_ms == page.elapsed_ms
                &&& optional_text(data.title) == parser.spec_first_text("title"@)
                &&& metadata_model(data.metadata@) == basic_metadata(parser, Map::empty())
                &&& forall|name: Seq<char>| #[trigger]
                    data.extracted_data@.contains_key(name) <==> self.spec_extractor().yields(
                        parser,
                        name,
                    )
                &&& forall|name: Seq<char>| #[trigger]
                    data.extracted_data@.contains_key(name) ==> data.extracted_data@[name].len()
                        > 0 && data.extracted_data@[name].deep_view() == rule_values(
                        parser,
                        self.spec_extractor().spec_rules()@[name]@,
                    )
            }),
    {
        let parser = match HtmlParser::new(page.content.as_str()) {
            Ok(parser) => parser,
            Err(e) => {
                return Err(e);
            },
        };
        let mut scraped_data = ScrapedData::new(url.to_owned());
        scraped_data.status_code = page.status_code;
        scraped_data.headers = page.headers;
        scraped_data.content = page.content;
        scraped_data.scrape_time_ms = page.elapsed_ms;
        assert(metadata_model(scraped_data.metadata@) =~= Map::<Seq<char>, MetadataModel>::empty());
        self.extract_basic_metadata(&parser, &mut scraped_data);
        if self.extractor.rule_count() > 0 {
            match self.extractor.extract_all(&parser) {
                Ok(extracted_data) => {
                    scraped_data.extracted_data = extracted_data;
                },
                Err(_) => {},
            }
        } else {
            proof {
                self.extractor.spec_rules().lemma_shape();
                assert forall|name: Seq<char>| !self.extractor.yields(parser, name) by {
                    if self.extractor.spec_rules()@.contains_key(name) {
                        assert(self.extractor.spec_rules()@.dom().contains(name));
                        vstd::set_lib::lemma_set_empty_equivalency_len(
                            self.extractor.spec_rules()@.dom(),
                        );
                    }
                }
            }
        }
        Ok(scraped_data)
    }

    /// Add an extraction rule.
    pub fn add_extraction_rule(&mut self, rule: ExtractionRule)
        ensures
            final(self).spec_extractor().spec_rules()@ == old(
                self,
            ).spec_extractor().spec_rules()@.insert(rule.name@, rule),
            final(self).spec_client() == old(self).spec_client(),
    {
        self.extractor.add_rule(rule);
    }

    /// Remove an extraction rule.
    pub fn remove_extraction_rule(&mut self, name: &str) -> (removed: Option<ExtractionRule>)
        ensures
            final(self).spec_extractor().spec_rules()@ == old(
                self,
            ).spec_extractor().spec_rules()@.remove(name@),
            removed == if old(self).spec_extractor().spec_rules()@.contains_key(name@) {
                Some(old(self).spec_extractor().spec_rules()@[name@])
            } else {
                None
            },
            final(self).spec_client() == old(self).spec_client(),
    {
        self.extractor.remove_rule(name)
    }

    /// Get all extraction rules.
    pub fn extraction_rules(&self) -> (r: &StringMap<ExtractionRule>)
        ensures
            *r == self.spec_extractor().spec_rules(),
    {
        self.extractor.rules()
    }

    /// Get request statistics.
    pub fn get_stats(&self) -> (s: RequestStats)
        ensures
            s == self.spec_client().spec_stats(),
    {
        self.client.get_stats()
    }

    /// Reset request statistics.
    pub fn reset_stats(&mut self)
        ensures
            final(self).spec_client().spec_stats() == RequestStats::spec_new(),
            final(self).spec_client().spec_stats().total_requests == 0,
            final(self).spec_client().spec_stats().spec_success_rate().numerator == 0,
            final(self).spec_client().spec_config() == old(self).spec_client().spec_config(),
            final(self).spec_extractor() == old(self).spec_extractor(),
    {
        self.client.reset_stats();
    }

    /// Get configuration.
    pub fn config(&self) -> (c: &Config)
        ensures
            *c == self.spec_client().spec_config(),
    {
        self.client.config()
    }

    /// Extract basic metadata from the page.
    pub fn extract_basic_metadata(&self, parser: &HtmlParser, scraped_data: &mut ScrapedData)
        ensures
            optional_text(final(scraped_data).title) == parser.spec_first_text("title"@),
            metadata_model(final(scraped_data).metadata@) == basic_metadata(
                *parser,
                metadata_model(old(scraped_data).metadata@),
            ),
            *final(scraped_data) == (ScrapedData {
                title: final(scraped_data).title,
                metadata: final(scraped_data).metadata,
                ..*old(scraped_data)
            }),
    {
        scraped_data.title = parser.title();
        if let Some(description) = parser.description() {
            proof {
                lemma_model_insert(
                    scraped_data.metadata@,
                    "description"@,
                    MetadataValue::Text(description),
                );
            }
            scraped_data.add_metadata("description", MetadataValue::Text(description));
        }
        if let Some(keywords) = parser.keywords() {
            proof {
                lemma_model_insert(
                    scraped_data.metadata@,
                    "keywords"@,
                    MetadataValue::Text(keywords),
                );
            }
            scraped_data.add_metadata("keywords", MetadataValue::Text(keywords));
        }
        if let Some(canonical_url) = parser.canonical_url() {
            proof {
                lemma_model_insert(
                    scraped_data.metadata@,
                    "canonical_url"@,
                    MetadataValue::Text(canonical_url),
                );
            }
            scraped_data.add_metadata("canonical_url", MetadataValue::Text(canonical_url));
        }
        let json_ld = parser.json_ld();
        if json_ld.len() > 0 {
            proof {
                lemma_model_insert(
                    scraped_data.metadata@,
                    "json_ld"@,
                    MetadataValue::Documents(json_ld),
                );
            }
            scraped_data.add_metadata("json_ld", MetadataValue::Documents(json_ld));
        }
        let links_count = parser.links().len();
        let images_count = parser.images().len();
        proof {
            lemma_model_insert(
                scraped_data.metadata@,
                "links_count"@,
                MetadataValue::Count(links_count as u64),
            );
        }
        scraped_data.add_metadata("links_count", MetadataValue::Count(links_count as u64));
        proof {
            lemma_model_insert(
                scraped_data.metadata@,
                "images_count"@,
                MetadataValue::Count(images_count as u64),
            );
        }
        scraped_data.add_metadata("images_count", MetadataValue::Count(images_count as u64));
        let forms_count = parser.forms().len();
        proof {
            lemma_model_insert(
                scraped_data.metadata@,
                "forms_count"@,
                MetadataValue::Count(forms_count as u64),
            );
        }
        scraped_data.add_metadata("forms_count", MetadataValue::Count(forms_count as u64));
    }

    /// Extract specific data by rule name from a record's content.
    pub fn extract_from_record(&self, scraped_data: &ScrapedData, rule_name: &str) -> (r: Result<
        Vec<String>,
        FerrisFetcherError,
    >)
        ensures
            match r {
                Ok(values) => {
                    &&& self.spec_extractor().spec_rules()@.contains_key(rule_name@)
                    &&& !crate::extractor::rule_fails(
                        self.spec_extractor().spec_rules()@[rule_name@]@,
                    )
                    &&& values.deep_view() == rule_values(
                        HtmlParser::spec_parse(scraped_data.content@),
                        self.spec_extractor().spec_rules()@[rule_name@]@,
                    )
                },
                Err(e) => if self.spec_extractor().spec_rules()@.contains_key(rule_name@) {
                    crate::extractor::rule_fails(self.spec_extractor().spec_rules()@[rule_name@]@)
                        && crate::extractor::reports_rule_failure(
                        e,
                        self.spec_extractor().spec_rules()@[rule_name@]@,
                    )
                } else {
                    e is ExtractionError && e->ExtractionError_0@ == "Extraction rule '"@
                        + rule_name@ + "' not found"@
                },
            },
    {
        let parser = match HtmlParser::new(scraped_data.content.as_str()) {
            Ok(parser) => parser,
            Err(e) => {
                return Err(e);
            },
        };
        self.extractor.extract_by_name(&parser, rule_name)
    }

    /// Extract a single value by rule name from a record's content.
    pub fn extract_single_from_record(&self, scraped_data: &ScrapedData, rule_name: &str) -> (r:
        Option<String>)
        ensures
            optional_text(r) == self.spec_extractor().spec_extract_single(
                HtmlParser::spec_parse(scraped_data.content@),
                rule_name@,
            ),
    {
        match self.extract_from_record(scraped_data, rule_name) {
            Ok(values) => {
                if values.len() > 0 {
                    assert(values.deep_view()[0] == values[0]@);
                    Some(values[0].clone())
                } else {
                    None
                }
            },
            Err(_) => None,
        }
    }

    /// Starts a batch over `total` URLs under this scraper's concurrency
    /// ceiling.
    pub fn begin_batch(&self, total: usize) -> (batch: BatchState)
        ensures
            batch@ == BatchModel::fresh(
                total as nat,
                self.spec_client().spec_config().max_concurrent_requests as nat,
            ),
    {
        BatchState::new(total, self.client.max_concurrent_requests())
    }

    /// Check if the scraper has rate limiting enabled.
    pub fn has_rate_limiting(&self) -> (b: bool)
        ensures
            b == (self.spec_client().spec_config().rate_limit is Some),
    {
        self.client.has_rate_limiting()
    }

    /// Get the maximum concurrent requests.
    pub fn max_concurrent_requests(&self) -> (n: usize)
        ensures
            n == self.spec_client().spec_config().max_concurrent_requests,
    {
        self.client.max_concurrent_requests()
    }
}

/// A batch of fetches as plain values: of `total` URLs the first `started`
/// have been dispatched, `in_flight` of them are still being fetched, and
/// `results` holds the records of those that succeeded, in the order in
/// which they completed.
pub ghost struct BatchModel {
    pub total: nat,
    pub limit: nat,
    pub started: nat,
    pub in_flight: nat,
    pub results: Seq<ScrapedData>,
}

/// What the driver of a batch is to do next.
#[derive(Debug, Clone, Copy, PartialEq, Eq, Structural)]
pub enum BatchAction {
    /// Start fetching the URL at this index.
    Start { index: usize },
    /// Wait for a fetch to complete.
    Wait,
    /// Every URL has been dealt with.
    Finish,
}

/// Progress of a batch: the record of the URL at `index`, one of `total`,
/// has arrived.
#[derive(Debug, Clone, Copy, PartialEq, Eq, Structural)]
pub struct Progress {
    pub index: usize,
    pub total: usize,
}

impl BatchModel {
    /// A batch of which nothing has been dispatched.
    pub open spec fn fresh(total: nat, limit: nat) -> BatchModel {
        BatchModel { total, limit, started: 0, in_flight: 0, results: Seq::empty() }
    }

    /// Whether the batch is consistent: nothing is dispatched beyond the
    /// URLs there are, the fetches in flight respect the ceiling and are
    /// among those dispatched, and every record belongs to a fetch that
    /// completed.
    pub open spec fn consistent(self) -> bool {
        &&& self.started <= self.total
        &&& self.in_flight <= self.limit
        &&& self.in_flight + self.results.len() <= self.started
    }

    /// Whether another fetch may be dispatched now.
    pub open spec fn may_start(self) -> bool {
        self.started < self.total && self.in_flight < self.limit
    }

    /// The batch after the driver asked what to do next.
    pub open spec fn advanced(self) -> BatchModel {
        if self.may_start() {
            BatchModel { started: self.started + 1, in_flight: self.in_flight + 1, ..self }
        } else {
            self
        }
    }

    /// The batch after a fetch completed, with a record or without.
    pub open spec fn completed(self, outcome: Option<ScrapedData>) -> BatchModel {
        BatchModel {
            in_flight: if self.in_flight > 0 {
                (self.in_flight - 1) as nat
            } else {
                0
            },
            results: match outcome {
                Some(data) => self.results.push(data),
                None => self.results,
            },
            ..self
        }
    }
}

/// What can happen to a batch.
pub ghost enum BatchEvent {
    /// The driver asks what to do next.
    Advance,
    /// A fetch in flight completes, with a record or without.
    Complete(Option<ScrapedData>),
}

/// The batch after one event. A completion counts only while a fetch is in
/// flight.
pub open spec fn batch_after(batch: BatchModel, event: BatchEvent) -> BatchModel {
    match event {
        BatchEvent::Advance => batch.advanced(),
        BatchEvent::Complete(outcome) => if batch.in_flight > 0 {
            batch.completed(outcome)
        } else {
            batch
        },
    }
}

/// The batch after a sequence of events.
pub open spec fn batch_after_all(batch: BatchModel, events: Seq<BatchEvent>) -> BatchModel
    decreases events.len(),
{
    if events.len() == 0 {
        batch
    } else {
        batch_after(batch_after_all(batch, events.drop_last()), events.last())
    }
}

/// The number of completions in `events` that brought a record.
pub open spec fn records_in(events: Seq<BatchEvent>) -> nat
    decreases events.len(),
{
    if events.len() == 0 {
        0
    } else {
        records_in(events.drop_last()) + if events.last() matches BatchEvent::Complete(Some(_)) {
            1nat
        } else {
            0nat
        }
    }
}

/// Whatever the driver does and however the fetches end, a batch never has
/// more fetches in flight than its ceiling allows, and never holds more
/// records than completions brought.
pub proof fn lemma_batch_respects_ceiling(batch: BatchModel, events: Seq<BatchEvent>)
    requires
        batch.consistent(),
    ensures
        batch_after_all(batch, events).consistent(),
        batch_after_all(batch, events).in_flight <= batch.limit,
        batch_after_all(batch, events).limit == batch.limit,
        batch_after_all(batch, events).total == batch.total,
        batch_after_all(batch, events).results.len() <= batch.results.len() + records_in(events),
    decreases events.len(),
{
    if events.len() > 0 {
        lemma_batch_respects_ceiling(batch, events.drop_last());
    }
}

/// Under a ceiling of at least one, a batch that can neither start a fetch
/// nor wait for one has dispatched every URL, and every fetch has completed.
pub proof fn lemma_batch_finishes_complete(batch: BatchModel)
    requires
        batch.consistent(),
        batch.limit >= 1,
        !batch.may_start(),
        batch.in_flight == 0,
    ensures
        batch.started == batch.total,
        batch.advanced() == batch,
{
}

/// The coordinator of a batch: decides when the next fetch may start and
/// collects the records of those that succeed.
#[derive(Debug)]
pub struct BatchState {
    total: usize,
    limit: usize,
    started: usize,
    in_flight: usize,
    results: Vec<ScrapedData>,
}

impl View for BatchState {
    type V = BatchModel;

    closed spec fn view(&self) -> BatchModel {
        BatchModel {
            total: self.total as nat,
            limit: self.limit as nat,
            started: self.started as nat,
            in_flight: self.in_flight as nat,
            results: self.results@,
        }
    }
}

impl BatchState {
    #[verifier::type_invariant]
    spec fn consistent(&self) -> bool {
        &&& self.started <= self.total
        &&& self.in_flight <= self.limit
        &&& self.in_flight + self.results.len() <= self.started
    }

    /// A batch over `total` URLs with at most `limit` fetches in flight.
    pub fn new(total: usize, limit: usize) -> (batch: Self)
        ensures
            batch@ == BatchModel::fresh(total as nat, limit as nat),
            batch@.consistent(),
    {
        BatchState { total, limit, started: 0, in_flight: 0, results: Vec::new() }
    }

    /// Says what to do next: start the next URL while one is left and the
    /// ceiling allows it, else wait while fetches are in flight, else
    /// finish.
    pub fn next_action(&mut self) -> (action: BatchAction)
        ensures
            final(self)@ == old(self)@.advanced(),
            final(self)@.consistent(),
            action == if old(self)@.may_start() {
                BatchAction::Start { index: old(self)@.started as usize }
            } else if old(self)@.in_flight > 0 {
                BatchAction::Wait
            } else {
                BatchAction::Finish
            },
    {
        proof {
            use_type_invariant(&*self);
        }
        if self.started < self.total && self.in_flight < self.limit {
            let index = self.started;
            let mut results: Vec<ScrapedData> = Vec::new();
            core::mem::swap(&mut self.results, &mut results);
            *self = BatchState {
                total: self.total,
                limit: self.limit,
                started: self.started + 1,
                in_flight: self.in_flight + 1,
                results,
            };
            BatchAction::Start { index }
        } else if self.in_flight > 0 {
            BatchAction::Wait
        } else {
            BatchAction::Finish
        }
    }

    /// Notes that the fetch of the URL at `index` completed, with a record
    /// or without. A record is kept, and reported as progress.
    pub fn complete(&mut self, index: usize, outcome: Option<ScrapedData>) -> (progress: Option<
        Progress,
    >)
        requires
            old(self)@.in_flight > 0,
        ensures
            final(self)@ == old(self)@.completed(outcome),
            final(self)@.consistent(),
            progress == (match outcome {
                Some(_) => Some(Progress { index, total: old(self)@.total as usize }),
                None => None,
            }),
    {
        proof {
            use_type_invariant(&*self);
        }
        let mut results: Vec<ScrapedData> = Vec::new();
        core::mem::swap(&mut self.results, &mut results);
        let progress = match outcome {
            Some(data) => {
                results.push(data);
                Some(Progress { index, total: self.total })
            },
            None => None,
        };
        *self = BatchState {
            total: self.total,
            limit: self.limit,
            started: self.started,
            in_flight: self.in_flight - 1,
            results,
        };
        progress
    }

    /// The number of fetches in flight.
    pub fn in_flight(&self) -> (n: usize)
        ensures
            n == self@.in_flight,
            n <= self@.limit,
    {
        proof {
            use_type_invariant(self);
        }
        self.in_flight
    }

    /// Whether every URL has been dispatched and every fetch has completed.
    pub fn is_finished(&self) -> (b: bool)
        ensures
            b == (self@.started == self@.total && self@.in_flight == 0),
    {
        self.started == self.total && self.in_flight == 0
    }

    /// The records collected so far.
    pub fn into_results(self) -> (results: Vec<ScrapedData>)
        ensures
            results@ == self@.results,
    {
        self.results
    }
}

/// Builder for creating FerrisFetcher instances with fluent API.
pub struct FerrisFetcherBuilder {
    config: Config,
    rules: Vec<ExtractionRule>,
}

impl FerrisFetcherBuilder {
    /// The configuration staged so far.
    pub closed spec fn spec_config(&self) -> Config {
        self.config
    }

    /// The rules staged so far.
    pub closed spec fn spec_rules(&self) -> Seq<ExtractionRule> {
        self.rules@
    }

    /// Create a new builder: the default configuration and no rules.
    pub fn new() -> (b: Self)
        ensures
            b.spec_rules() == Seq::<ExtractionRule>::empty(),
            b.spec_config().spec_is_default(),
            b.spec_config().spec_problem() is None,
    {
        FerrisFetcherBuilder { config: Config::default(), rules: Vec::new() }
    }

    /// Set custom configuration.
    pub fn config(self, config: Config) -> (b: Self)
        ensures
            b.spec_config() == config,
            b.spec_rules() == self.spec_rules(),
    {
        FerrisFetcherBuilder { config, rules: self.rules }
    }

    /// Add an extraction rule.
    pub fn add_rule(self, rule: ExtractionRule) -> (b: Self)
        ensures
            b.spec_config() == self.spec_config(),
            b.spec_rules() == self.spec_rules().push(rule),
    {
        let mut b = self;
        b.rules.push(rule);
        b
    }

    /// Add multiple extraction rules.
    pub fn add_rules(self, rules: Vec<ExtractionRule>) -> (b: Self)
        ensures
            b.spec_config() == self.spec_config(),
            b.spec_rules() == self.spec_rules() + rules@,
    {
        let mut b = self;
        let mut rules = rules;
        b.rules.append(&mut rules);
        b
    }

    /// Set user agent.
    pub fn user_agent(self, user_agent: &str) -> (b: Self)
        ensures
            b.spec_rules() == self.spec_rules(),
            b.spec_config().user_agent@ == user_agent@,
            header_put(
                header_entries(self.spec_config().headers),
                header_entries(b.spec_config().headers),
                "user-agent"@,
                user_agent.spec_bytes(),
            ),
            b.spec_config() == (Config {
                user_agent: b.spec_config().user_agent,
                headers: b.spec_config().headers,
                ..self.spec_config()
            }),
    {
        FerrisFetcherBuilder { config: self.config.with_user_agent(user_agent), rules: self.rules }
    }

    /// Set timeout.
    pub fn timeout(self, timeout: Duration) -> (b: Self)
        ensures
            b.spec_rules() == self.spec_rules(),
            b.spec_config() == (Config { timeout, ..self.spec_config() }),
    {
        FerrisFetcherBuilder { config: self.config.with_timeout(timeout), rules: self.rules }
    }

    /// Set maximum concurrent requests.
    pub fn max_concurrent_requests(self, max: usize) -> (b: Self)
        ensures
            b.spec_rules() == self.spec_rules(),
            b.spec_config() == (Config { max_concurrent_requests: max, ..self.spec_config() }),
    {
        FerrisFetcherBuilder {
            config: self.config.with_max_concurrent_requests(max),
            rules: self.rules,
        }
    }

    /// Disable rate limiting.
    pub fn without_rate_limit(self) -> (b: Self)
        ensures
            b.spec_rules() == self.spec_rules(),
            b.spec_config() == (Config { rate_limit: None, ..self.spec_config() }),
    {
        FerrisFetcherBuilder { config: self.config.without_rate_limit(), rules: self.rules }
    }

    /// Set retry policy.
    pub fn retry_policy(self, retry_policy: RetryPolicy) -> (b: Self)
        ensures
            b.spec_rules() == self.spec_rules(),
            b.spec_config() == (Config { retry_policy, ..self.spec_config() }),
    {
        FerrisFetcherBuilder {
            config: self.config.with_retry_policy(retry_policy),
            rules: self.rules,
        }
    }

    /// Add custom header.
    pub fn header(self, name: &str, value: &str) -> (r: Result<Self, FerrisFetcherError>)
        ensures
            match r {
                Ok(b) => {
                    &&& b.spec_rules() == self.spec_rules()
                    &&& normalized_header_name(name@) is Some
                    &&& header_value_allowed(value.spec_bytes())
                    &&& header_entries(b.spec_config().headers) == header_entries(
                        self.spec_config().headers,
                    ).insert(normalized_header_name(name@)->Some_0, value.spec_bytes())
                    &&& b.spec_config() == (Config {
                        headers: b.spec_config().headers,
                        ..self.spec_config()
                    })
                },
                Err(e) => e is ConfigError && (normalized_header_name(name@) is None
                    || !header_value_allowed(value.spec_bytes()) || e->ConfigError_0@
                    == "Too many headers"@),
            },
    {
        let rules = self.rules;
        match self.config.with_header(name, value) {
            Ok(config) => Ok(FerrisFetcherBuilder { config, rules }),
            Err(e) => Err(e),
        }
    }

    /// Set proxy.
    pub fn proxy(self, proxy: Url) -> (b: Self)
        ensures
            b.spec_rules() == self.spec_rules(),
            b.spec_config() == (Config { proxy: Some(proxy), ..self.spec_config() }),
    {
        FerrisFetcherBuilder { config: self.config.with_proxy(proxy), rules: self.rules }
    }

    /// Disable redirects.
    pub fn without_redirects(self) -> (b: Self)
        ensures
            b.spec_rules() == self.spec_rules(),
            b.spec_config() == (Config { follow_redirects: false, ..self.spec_config() }),
    {
        FerrisFetcherBuilder { config: self.config.without_redirects(), rules: self.rules }
    }

    /// Disable cookies.
    pub fn without_cookies(self) -> (b: Self)
        ensures
            b.spec_rules() == self.spec_rules(),
            b.spec_config() == (Config { cookie_jar: false, ..self.spec_config() }),
    {
        FerrisFetcherBuilder { config: self.config.without_cookies(), rules: self.rules }
    }

    /// Build the FerrisFetcher instance. The staged configuration must be
    /// valid.
    pub fn build(self) -> (r: Result<FerrisFetcher, FerrisFetcherError>)
        ensures
            match r {
                Ok(fetcher) => {
                    &&& self.spec_config().spec_problem() is None
                    &&& fetcher.spec_client().spec_config() == self.spec_config()
                    &&& fetcher.spec_extractor().spec_rules().keys() == crate::extractor::keys_after(
                        self.spec_rules(),
                    )
                    &&& fetcher.spec_extractor().spec_rules().values()
                        == crate::extractor::rules_after(self.spec_rules())
                },
                Err(e) => e@ is ConfigError && self.spec_config().spec_problem() == Some(
                    e@->ConfigError_0,
                ),
            },
    {
        FerrisFetcher::with_config_and_rules(self.config, self.rules)
    }
}

impl Default for FerrisFetcherBuilder {
    fn default() -> (b: Self)
        ensures
            b.spec_rules() == Seq::<ExtractionRule>::empty(),
            b.spec_config().spec_is_default(),
            b.spec_config().spec_problem() is None,
    {
        Self::new()
    }
}

} // verus!
