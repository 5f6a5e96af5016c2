//! FerrisFetcher: the decision core of a web scraping library.
//!
//! The crate holds the rule-driven extraction engine, the configuration
//! model, request statistics, and the state machines that govern admission,
//! retries and batch fan-out. Every function carries a contract that is
//! proved of its body; network access is left to the embedding program.

use vstd::prelude::*;

pub mod client;
pub mod config;
pub mod error;
pub mod extractor;
pub mod fetcher;
pub mod html_parser;
pub mod string_map;
pub mod text;
pub mod time;
pub mod types;

pub use client::HttpClient;
pub use config::Config;
pub use error::FerrisFetcherError;
pub use extractor::presets;
pub use extractor::{DataExtractor, ExtractionRuleBuilder};
pub use fetcher::{FerrisFetcher, FerrisFetcherBuilder};
pub use html_parser::HtmlParser;
pub use types::{
    ExtractionRule, ExtractionType, HttpMethod, RateLimit, RequestStats, RetryPolicy, ScrapedData,
};

verus! {

/// Library version.
pub const VERSION: &'static str = "0.1.0";

} // verus!
