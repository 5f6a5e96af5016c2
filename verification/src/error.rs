//! Error taxonomy shared by every component.

use std::time::Duration;
use vstd::prelude::*;

verus! {

/// Everything that can go wrong while configuring, fetching or extracting.
///
/// Failures that originate in a collaborator (transport, URL parser, JSON
/// parser, operating system) are carried as their rendered message.
#[derive(Debug)]
pub enum FerrisFetcherError {
    /// The transport could not complete the exchange.
    HttpError(String),
    /// A selector pattern could not be parsed.
    ParseError(String),
    /// A rule is misconfigured or names data that is not there.
    ExtractionError(String),
    /// A setting is invalid.
    ConfigError(String),
    /// The remote side asked to slow down.
    RateLimitExceeded(Duration),
    /// The operation ran out of time.
    TimeoutError(Duration),
    /// The address is not a valid URL.
    InvalidUrl(String),
    /// An input/output failure.
    IoError(String),
    /// A JSON document could not be read or written.
    JsonError(String),
    /// Every permitted attempt failed and no failure was captured.
    RetryExhausted,
    /// The wait for an admission slot was aborted.
    TaskCancelled,
    /// A selector was rejected.
    InvalidSelector(String),
    /// The server answered with a failure status.
    NetworkError(String),
}

/// An error as plain mathematical values: the same cases, each message as
/// a sequence of characters.
pub ghost enum ErrorModel {
    HttpError(Seq<char>),
    ParseError(Seq<char>),
    ExtractionError(Seq<char>),
    ConfigError(Seq<char>),
    RateLimitExceeded(Duration),
    TimeoutError(Duration),
    InvalidUrl(Seq<char>),
    IoError(Seq<char>),
    JsonError(Seq<char>),
    RetryExhausted,
    TaskCancelled,
    InvalidSelector(Seq<char>),
    NetworkError(Seq<char>),
}

impl View for FerrisFetcherError {
    type V = ErrorModel;

    open spec fn view(&self) -> ErrorModel {
        match *self {
            FerrisFetcherError::HttpError(m) => ErrorModel::HttpError(m@),
            FerrisFetcherError::ParseError(m) => ErrorModel::ParseError(m@),
            FerrisFetcherError::ExtractionError(m) => ErrorModel::ExtractionError(m@),
            FerrisFetcherError::ConfigError(m) => ErrorModel::ConfigError(m@),
            FerrisFetcherError::RateLimitExceeded(d) => ErrorModel::RateLimitExceeded(d),
            FerrisFetcherError::TimeoutError(d) => ErrorModel::TimeoutError(d),
            FerrisFetcherError::InvalidUrl(m) => ErrorModel::InvalidUrl(m@),
            FerrisFetcherError::IoError(m) => ErrorModel::IoError(m@),
            FerrisFetcherError::JsonError(m) => ErrorModel::JsonError(m@),
            FerrisFetcherError::RetryExhausted => ErrorModel::RetryExhausted,
            FerrisFetcherError::TaskCancelled => ErrorModel::TaskCancelled,
            FerrisFetcherError::InvalidSelector(m) => ErrorModel::InvalidSelector(m@),
            FerrisFetcherError::NetworkError(m) => ErrorModel::NetworkError(m@),
        }
    }
}

impl FerrisFetcherError {
    /// Whether a later attempt may succeed where this one failed.
    pub open spec fn spec_is_retryable(&self) -> bool {
        self is HttpError || self is NetworkError || self is TimeoutError
            || self is RateLimitExceeded
    }

    /// The label under which this error's family is reported.
    pub open spec fn spec_category(&self) -> Seq<char> {
        match *self {
            FerrisFetcherError::HttpError(_) => "HTTP"@,
            FerrisFetcherError::ParseError(_) => "Parsing"@,
            FerrisFetcherError::ExtractionError(_) => "Extraction"@,
            FerrisFetcherError::ConfigError(_) => "Configuration"@,
            FerrisFetcherError::RateLimitExceeded(_) => "Rate Limit"@,
            FerrisFetcherError::TimeoutError(_) => "Timeout"@,
            FerrisFetcherError::InvalidUrl(_) => "URL"@,
            FerrisFetcherError::IoError(_) => "IO"@,
            FerrisFetcherError::JsonError(_) => "JSON"@,
            FerrisFetcherError::RetryExhausted => "Retry"@,
            FerrisFetcherError::TaskCancelled => "Cancellation"@,
            FerrisFetcherError::InvalidSelector(_) => "Selector"@,
            FerrisFetcherError::NetworkError(_) => "Network"@,
        }
    }

    /// Check if this error is retryable.
    pub fn is_retryable(&self) -> (r: bool)
        ensures
            r == self.spec_is_retryable(),
    {
        match self {
            FerrisFetcherError::HttpError(_) => true,
            FerrisFetcherError::NetworkError(_) => true,
            FerrisFetcherError::TimeoutError(_) => true,
            FerrisFetcherError::RateLimitExceeded(_) => true,
            FerrisFetcherError::TaskCancelled => false,
            FerrisFetcherError::ParseError(_) => false,
            FerrisFetcherError::ExtractionError(_) => false,
            FerrisFetcherError::ConfigError(_) => false,
            FerrisFetcherError::InvalidUrl(_) => false,
            FerrisFetcherError::IoError(_) => false,
            FerrisFetcherError::JsonError(_) => false,
            FerrisFetcherError::RetryExhausted => false,
            FerrisFetcherError::InvalidSelector(_) => false,
        }
    }

    /// Get a human-readable error category.
    pub fn category(&self) -> (r: &'static str)
        ensures
            r@ == self.spec_category(),
    {
        match self {
            FerrisFetcherError::HttpError(_) => "HTTP",
            FerrisFetcherError::ParseError(_) => "Parsing",
            FerrisFetcherError::ExtractionError(_) => "Extraction",
            FerrisFetcherError::ConfigError(_) => "Configuration",
            FerrisFetcherError::RateLimitExceeded(_) => "Rate Limit",
            FerrisFetcherError::TimeoutError(_) => "Timeout",
            FerrisFetcherError::InvalidUrl(_) => "URL",
            FerrisFetcherError::IoError(_) => "IO",
            FerrisFetcherError::JsonError(_) => "JSON",
            FerrisFetcherError::RetryExhausted => "Retry",
            FerrisFetcherError::TaskCancelled => "Cancellation",
            FerrisFetcherError::InvalidSelector(_) => "Selector",
            FerrisFetcherError::NetworkError(_) => "Network",
        }
    }
}

} // verus!
