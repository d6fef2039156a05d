//! The library's error type.

use vstd::prelude::*;
use vstd::string::*;

verus! {

/// An error of the HTTP client.
#[verifier::external_type_specification]
#[verifier::external_body]
pub struct ExHttpError(reqwest::Error);

/// An error of the JSON reader.
#[verifier::external_type_specification]
#[verifier::external_body]
pub struct ExJsonError(serde_json::Error);

/// An input/output error.
#[verifier::external_type_specification]
#[verifier::external_body]
pub struct ExIoError(std::io::Error);

/// Everything that can go wrong while trading.
#[derive(Debug)]
pub enum TradingError {
    ApiError(String),
    AuthError(String),
    OrderError(String),
    InsufficientBalance(String),
    NetworkError(reqwest::Error),
    JsonError(serde_json::Error),
    ConfigError(String),
    StrategyError(String),
    RiskError(String),
    BacktestError(String),
    IoError(std::io::Error),
    Unknown(String),
}

/// The text that stands before the detail in the message of each kind of error.
pub open spec fn error_prefix(e: TradingError) -> Seq<char> {
    match e {
        TradingError::ApiError(_) => "API error: "@,
        TradingError::AuthError(_) => "Authentication failed: "@,
        TradingError::OrderError(_) => "Invalid order: "@,
        TradingError::InsufficientBalance(_) => "Insufficient balance: "@,
        TradingError::NetworkError(_) => "Network error: "@,
        TradingError::JsonError(_) => "JSON parsing error: "@,
        TradingError::ConfigError(_) => "Configuration error: "@,
        TradingError::StrategyError(_) => "Strategy error: "@,
        TradingError::RiskError(_) => "Risk management error: "@,
        TradingError::BacktestError(_) => "Backtest error: "@,
        TradingError::IoError(_) => "IO error: "@,
        TradingError::Unknown(_) => "Unknown error: "@,
    }
}

/// The detail text that an error carries itself, where it is a text.
pub open spec fn error_detail(e: TradingError) -> Option<Seq<char>> {
    match e {
        TradingError::ApiError(s) => Some(s@),
        TradingError::AuthError(s) => Some(s@),
        TradingError::OrderError(s) => Some(s@),
        TradingError::InsufficientBalance(s) => Some(s@),
        TradingError::ConfigError(s) => Some(s@),
        TradingError::StrategyError(s) => Some(s@),
        TradingError::RiskError(s) => Some(s@),
        TradingError::BacktestError(s) => Some(s@),
        TradingError::Unknown(s) => Some(s@),
        _ => None,
    }
}

/// The `Display` text of an HTTP client error.
/// Nothing is stated of the text: it is whatever `reqwest::Error`'s `Display` prints.
#[verifier::external_body]
fn http_error_text(e: &reqwest::Error) -> String {
    format!("{}", e)
}

/// The `Display` text of a JSON error.
/// Nothing is stated of the text: it is whatever `serde_json::Error`'s `Display` prints.
#[verifier::external_body]
fn json_error_text(e: &serde_json::Error) -> String {
    format!("{}", e)
}

/// The `Display` text of an input/output error.
/// Nothing is stated of the text: it is whatever `std::io::Error`'s `Display` prints.
#[verifier::external_body]
fn io_error_text(e: &std::io::Error) -> String {
    format!("{}", e)
}

fn prefixed(prefix: &str, detail: &str) -> (r: String)
    ensures
        r@ == prefix@ + detail@,
{
    let mut r = String::from_str(prefix);
    r.append(detail);
    r
}

impl TradingError {
    /// The human-readable message of this error: the kind's prefix, then
    /// the detail (for the wrapped outside errors, their own text).
    pub fn message(&self) -> (r: String)
        ensures
            error_detail(*self) is Some ==> r@ == error_prefix(*self) + error_detail(*self).unwrap(),
            error_prefix(*self).is_prefix_of(r@),
    {
        match self {
            TradingError::ApiError(s) => prefixed("API error: ", s.as_str()),
            TradingError::AuthError(s) => prefixed("Authentication failed: ", s.as_str()),
            TradingError::OrderError(s) => prefixed("Invalid order: ", s.as_str()),
            TradingError::InsufficientBalance(s) => prefixed("Insufficient balance: ", s.as_str()),
            TradingError::NetworkError(e) => {
                let t = http_error_text(e);
                prefixed("Network error: ", t.as_str())
            },
            TradingError::JsonError(e) => {
                let t = json_error_text(e);
                prefixed("JSON parsing error: ", t.as_str())
            },
            TradingError::ConfigError(s) => prefixed("Configuration error: ", s.as_str()),
            TradingError::StrategyError(s) => prefixed("Strategy error: ", s.as_str()),
            TradingError::RiskError(s) => prefixed("Risk management error: ", s.as_str()),
            TradingError::BacktestError(s) => prefixed("Backtest error: ", s.as_str()),
            TradingError::IoError(e) => {
                let t = io_error_text(e);
                prefixed("IO error: ", t.as_str())
            },
            TradingError::Unknown(s) => prefixed("Unknown error: ", s.as_str()),
        }
    }
}

impl From<reqwest::Error> for TradingError {
    fn from(e: reqwest::Error) -> (r: Self) {
        TradingError::NetworkError(e)
    }
}

impl vstd::std_specs::convert::FromSpecImpl<reqwest::Error> for TradingError {
    open spec fn obeys_from_spec() -> bool {
        true
    }

    open spec fn from_spec(e: reqwest::Error) -> Self {
        TradingError::NetworkError(e)
    }
}

impl From<serde_json::Error> for TradingError {
    fn from(e: serde_json::Error) -> (r: Self) {
        TradingError::JsonError(e)
    }
}

impl vstd::std_specs::convert::FromSpecImpl<serde_json::Error> for TradingError {
    open spec fn obeys_from_spec() -> bool {
        true
    }

    open spec fn from_spec(e: serde_json::Error) -> Self {
        TradingError::JsonError(e)
    }
}

impl From<std::io::Error> for TradingError {
    fn from(e: std::io::Error) -> (r: Self) {
        TradingError::IoError(e)
    }
}

impl vstd::std_specs::convert::FromSpecImpl<std::io::Error> for TradingError {
    open spec fn obeys_from_spec() -> bool {
        true
    }

    open spec fn from_spec(e: std::io::Error) -> Self {
        TradingError::IoError(e)
    }
}

} // verus!
