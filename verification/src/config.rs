//! Configuration: the settings of each part of the system, read from
//! environment variables with their defaults. The program reads the
//! variables (`None` where one is not set) and the floating-point
//! settings; these functions turn the texts into settings.

use vstd::prelude::*;
use vstd::string::*;
use crate::text::{IntParseError, parse_unsigned, parse_unsigned_up_to, text_eq};

verus! {

/// Credentials and network of the exchange.
#[derive(Debug, Clone)]
pub struct ExchangeConfig {
    pub api_key: String,
    pub secret_key: String,
    pub use_testnet: bool,
}

/// Order execution settings.
#[derive(Debug, Clone)]
pub struct ExecutionConfig {
    pub order_retry_attempts: u32,
    pub order_timeout_seconds: u64,
    pub latency_simulation_ms: u64,
}

/// Logging settings.
#[derive(Debug, Clone)]
pub struct LoggingConfig {
    pub log_level: String,
    pub log_file: String,
}

/// Backtest data settings.
#[derive(Debug, Clone)]
pub struct BacktestConfig {
    pub start_date: String,
    pub end_date: String,
    pub data_path: String,
}

/// Why a setting could not be read.
#[derive(Debug, Clone, Copy, PartialEq, Eq, Structural)]
pub enum ConfigError {
    /// A required variable is not set.
    NotPresent,
    /// A yes/no setting is neither `true` nor `false`.
    InvalidBool,
    /// A whole-number setting is not a number of its type.
    InvalidInt(IntParseError),
}

/// The message of a configuration error, as the standard library words it.
pub open spec fn config_error_message(e: ConfigError) -> Seq<char> {
    match e {
        ConfigError::NotPresent => "environment variable not found"@,
        ConfigError::InvalidBool => "provided string was not `true` or `false`"@,
        ConfigError::InvalidInt(IntParseError::Empty) => "cannot parse integer from empty string"@,
        ConfigError::InvalidInt(IntParseError::InvalidDigit) => "invalid digit found in string"@,
        ConfigError::InvalidInt(IntParseError::PosOverflow) => "number too large to fit in target type"@,
    }
}

impl ConfigError {
    /// The message of this error.
    pub fn message(&self) -> (r: &'static str)
        ensures
            r@ == config_error_message(*self),
    {
        match self {
            ConfigError::NotPresent => "environment variable not found",
            ConfigError::InvalidBool => "provided string was not `true` or `false`",
            ConfigError::InvalidInt(IntParseError::Empty) => "cannot parse integer from empty string",
            ConfigError::InvalidInt(IntParseError::InvalidDigit) => "invalid digit found in string",
            ConfigError::InvalidInt(IntParseError::PosOverflow) => "number too large to fit in target type",
        }
    }
}

/// The value of a yes/no text: exactly `true` or `false`.
pub open spec fn bool_value(s: Seq<char>) -> Option<bool> {
    if s == "true"@ {
        Some(true)
    } else if s == "false"@ {
        Some(false)
    } else {
        None
    }
}

/// Parses a yes/no text: `true` or `false`, nothing else.
pub fn parse_bool(text: &str) -> (r: Option<bool>)
    ensures
        r == bool_value(text@),
{
    if text_eq(text, "true") {
        Some(true)
    } else if text_eq(text, "false") {
        Some(false)
    } else {
        None
    }
}

/// The value of a whole-number setting no larger than `max`: its default
/// when the variable is not set, else the parsed text.
pub open spec fn int_setting(value: Option<Seq<char>>, default: nat, max: nat) -> Result<nat, ConfigError> {
    match value {
        None => Ok(default),
        Some(t) => match parse_unsigned(t, max) {
            Ok(v) => Ok(v),
            Err(e) => Err(ConfigError::InvalidInt(e)),
        },
    }
}

/// The view of an optional variable.
pub open spec fn opt_view(value: &Option<String>) -> Option<Seq<char>> {
    match value {
        Some(t) => Some(t@),
        None => None,
    }
}

fn int_setting_up_to(value: &Option<String>, default: u64, max: u64) -> (r: Result<u64, ConfigError>)
    requires
        default <= max,
    ensures
        match r {
            Ok(v) => int_setting(opt_view(value), default as nat, max as nat) == Ok::<nat, ConfigError>(v as nat)
                && v <= max,
            Err(e) => int_setting(opt_view(value), default as nat, max as nat) == Err::<nat, ConfigError>(e),
        },
{
    match value {
        None => Ok(default),
        Some(t) => match parse_unsigned_up_to(t.as_str(), max) {
            Ok(v) => {
                proof {
                    lemma_parsed_within(t@, max as nat);
                }
                Ok(v)
            },
            Err(e) => Err(ConfigError::InvalidInt(e)),
        },
    }
}

proof fn lemma_parse_digits_within(s: Seq<char>, acc: nat, max: nat)
    requires
        acc <= max,
    ensures
        crate::text::parse_digits(s, acc, max) matches Ok(v) ==> v <= max,
    decreases s.len(),
{
    if s.len() > 0 {
        let c = s[0];
        if crate::text::is_digit_char(c) && acc * 10 + crate::text::digit_value(c) <= max {
            lemma_parse_digits_within(s.drop_first(), acc * 10 + crate::text::digit_value(c), max);
        }
    }
}

proof fn lemma_parsed_within(s: Seq<char>, max: nat)
    ensures
        parse_unsigned(s, max) matches Ok(v) ==> v <= max,
{
    if s.len() > 0 {
        if s[0] == '+' {
            lemma_parse_digits_within(s.drop_first(), 0, max);
        } else {
            lemma_parse_digits_within(s, 0, max);
        }
    }
}

/// A `u32` setting with its default.
pub fn u32_setting(value: &Option<String>, default: u32) -> (r: Result<u32, ConfigError>)
    ensures
        match r {
            Ok(v) => int_setting(opt_view(value), default as nat, u32::MAX as nat) == Ok::<nat, ConfigError>(v as nat),
            Err(e) => int_setting(opt_view(value), default as nat, u32::MAX as nat) == Err::<nat, ConfigError>(e),
        },
{
    match int_setting_up_to(value, default as u64, u32::MAX as u64) {
        Ok(v) => Ok(v as u32),
        Err(e) => Err(e),
    }
}

/// A `u64` setting with its default.
pub fn u64_setting(value: &Option<String>, default: u64) -> (r: Result<u64, ConfigError>)
    ensures
        match r {
            Ok(v) => int_setting(opt_view(value), default as nat, u64::MAX as nat) == Ok::<nat, ConfigError>(v as nat),
            Err(e) => int_setting(opt_view(value), default as nat, u64::MAX as nat) == Err::<nat, ConfigError>(e),
        },
{
    int_setting_up_to(value, default, u64::MAX)
}

/// A `usize` setting with its default.
pub fn usize_setting(value: &Option<String>, default: usize) -> (r: Result<usize, ConfigError>)
    ensures
        match r {
            Ok(v) => int_setting(opt_view(value), default as nat, usize::MAX as nat) == Ok::<nat, ConfigError>(v as nat),
            Err(e) => int_setting(opt_view(value), default as nat, usize::MAX as nat) == Err::<nat, ConfigError>(e),
        },
{
    match int_setting_up_to(value, default as u64, usize::MAX as u64) {
        Ok(v) => Ok(v as usize),
        Err(e) => Err(e),
    }
}

/// The value of a yes/no setting: its default when the variable is not
/// set, else the parsed text.
pub open spec fn bool_setting_spec(value: Option<Seq<char>>, default: bool) -> Result<bool, ConfigError> {
    match value {
        None => Ok(default),
        Some(t) => match bool_value(t) {
            Some(b) => Ok(b),
            None => Err(ConfigError::InvalidBool),
        },
    }
}

/// A yes/no setting with its default.
pub fn bool_setting(value: &Option<String>, default: bool) -> (r: Result<bool, ConfigError>)
    ensures
        r == bool_setting_spec(opt_view(value), default),
{
    match value {
        None => Ok(default),
        Some(t) => match parse_bool(t.as_str()) {
            Some(b) => Ok(b),
            None => Err(ConfigError::InvalidBool),
        },
    }
}

/// A text setting: the variable's text, or the default when it is not set.
pub fn text_setting(value: Option<String>, default: &str) -> (r: String)
    ensures
        r@ == match opt_view(&value) {
            Some(t) => t,
            None => default@,
        },
{
    match value {
        Some(t) => t,
        None => String::from_str(default),
    }
}

/// A setting that must be given.
pub fn required_setting(value: Option<String>) -> (r: Result<String, ConfigError>)
    ensures
        match opt_view(&value) {
            Some(t) => r matches Ok(s) && s@ == t,
            None => r == Err::<String, ConfigError>(ConfigError::NotPresent),
        },
{
    match value {
        Some(t) => Ok(t),
        None => Err(ConfigError::NotPresent),
    }
}

impl ExchangeConfig {
    /// The exchange settings from `BINANCE_API_KEY` and `BINANCE_SECRET_KEY`
    /// (both required) and `USE_TESTNET` (default `true`), read in that order.
    pub fn from_settings(
        api_key: Option<String>,
        secret_key: Option<String>,
        use_testnet: Option<String>,
    ) -> (r: Result<Self, ConfigError>)
        ensures
            opt_view(&api_key) is None ==> r == Err::<Self, ConfigError>(ConfigError::NotPresent),
            opt_view(&api_key) is Some && opt_view(&secret_key) is None ==> r == Err::<Self, ConfigError>(
                ConfigError::NotPresent,
            ),
            opt_view(&api_key) is Some && opt_view(&secret_key) is Some ==> match bool_setting_spec(
                opt_view(&use_testnet),
                true,
            ) {
                Ok(b) => r matches Ok(c) && c.api_key@ == opt_view(&api_key).unwrap() && c.secret_key@
                    == opt_view(&secret_key).unwrap() && c.use_testnet == b,
                Err(e) => r == Err::<Self, ConfigError>(e),
            },
    {
        let api_key = match required_setting(api_key) {
            Ok(k) => k,
            Err(e) => return Err(e),
        };
        let secret_key = match required_setting(secret_key) {
            Ok(k) => k,
            Err(e) => return Err(e),
        };
        let use_testnet = match bool_setting(&use_testnet, true) {
            Ok(b) => b,
            Err(e) => return Err(e),
        };
        Ok(ExchangeConfig { api_key, secret_key, use_testnet })
    }
}

impl ExecutionConfig {
    /// The execution settings from `ORDER_RETRY_ATTEMPTS` (default 3),
    /// `ORDER_TIMEOUT_SECONDS` (default 30) and `LATENCY_SIMULATION_MS`
    /// (default 0), read in that order.
    pub fn from_settings(
        retry_attempts: Option<String>,
        timeout_seconds: Option<String>,
        latency_ms: Option<String>,
    ) -> (r: Result<Self, ConfigError>)
        ensures
            match (
                int_setting(opt_view(&retry_attempts), 3, u32::MAX as nat),
                int_setting(opt_view(&timeout_seconds), 30, u64::MAX as nat),
                int_setting(opt_view(&latency_ms), 0, u64::MAX as nat),
            ) {
                (Err(e), _, _) => r == Err::<Self, ConfigError>(e),
                (Ok(_), Err(e), _) => r == Err::<Self, ConfigError>(e),
                (Ok(_), Ok(_), Err(e)) => r == Err::<Self, ConfigError>(e),
                (Ok(a), Ok(t), Ok(l)) => r matches Ok(c) && c.order_retry_attempts == a
                    && c.order_timeout_seconds == t && c.latency_simulation_ms == l,
            },
    {
        let order_retry_attempts = match u32_setting(&retry_attempts, 3) {
            Ok(v) => v,
            Err(e) => return Err(e),
        };
        let order_timeout_seconds = match u64_setting(&timeout_seconds, 30) {
            Ok(v) => v,
            Err(e) => return Err(e),
        };
        let latency_simulation_ms = match u64_setting(&latency_ms, 0) {
            Ok(v) => v,
            Err(e) => return Err(e),
        };
        Ok(ExecutionConfig { order_retry_attempts, order_timeout_seconds, latency_simulation_ms })
    }
}

impl LoggingConfig {
    /// The logging settings from `LOG_LEVEL` (default `info`) and
    /// `LOG_FILE` (default `./logs/trading.log`).
    pub fn from_settings(log_level: Option<String>, log_file: Option<String>) -> (r: Self)
        ensures
            r.log_level@ == match opt_view(&log_level) {
                Some(t) => t,
                None => "info"@,
            },
            r.log_file@ == match opt_view(&log_file) {
                Some(t) => t,
                None => "./logs/trading.log"@,
            },
    {
        LoggingConfig {
            log_level: text_setting(log_level, "info"),
            log_file: text_setting(log_file, "./logs/trading.log"),
        }
    }
}

impl BacktestConfig {
    /// The backtest settings from `BACKTEST_START_DATE` (default
    /// `2024-01-01`), `BACKTEST_END_DATE` (default `2024-12-31`) and
    /// `BACKTEST_DATA_PATH` (default `./data/historical/`).
    pub fn from_settings(
        start_date: Option<String>,
        end_date: Option<String>,
        data_path: Option<String>,
    ) -> (r: Self)
        ensures
            r.start_date@ == match opt_view(&start_date) {
                Some(t) => t,
                None => "2024-01-01"@,
            },
            r.end_date@ == match opt_view(&end_date) {
                Some(t) => t,
                None => "2024-12-31"@,
            },
            r.data_path@ == match opt_view(&data_path) {
                Some(t) => t,
                None => "./data/historical/"@,
            },
    {
        BacktestConfig {
            start_date: text_setting(start_date, "2024-01-01"),
            end_date: text_setting(end_date, "2024-12-31"),
            data_path: text_setting(data_path, "./data/historical/"),
        }
    }
}

/// The trading pair (`TRADING_PAIR`, default `BTCUSDT`).
pub fn trading_pair_setting(value: Option<String>) -> (r: String)
    ensures
        r@ == match opt_view(&value) {
            Some(t) => t,
            None => "BTCUSDT"@,
        },
{
    text_setting(value, "BTCUSDT")
}

/// The most positions open at once (`MAX_POSITIONS`, default 3).
pub fn max_positions_setting(value: &Option<String>) -> (r: Result<usize, ConfigError>)
    ensures
        match r {
            Ok(v) => int_setting(opt_view(value), 3, usize::MAX as nat) == Ok::<nat, ConfigError>(v as nat),
            Err(e) => int_setting(opt_view(value), 3, usize::MAX as nat) == Err::<nat, ConfigError>(e),
        },
{
    usize_setting(value, 3)
}

/// The fast moving-average period (`EMA_FAST`, default 20).
pub fn ema_fast_setting(value: &Option<String>) -> (r: Result<usize, ConfigError>)
    ensures
        match r {
            Ok(v) => int_setting(opt_view(value), 20, usize::MAX as nat) == Ok::<nat, ConfigError>(v as nat),
            Err(e) => int_setting(opt_view(value), 20, usize::MAX as nat) == Err::<nat, ConfigError>(e),
        },
{
    usize_setting(value, 20)
}

/// The slow moving-average period (`EMA_SLOW`, default 50).
pub fn ema_slow_setting(value: &Option<String>) -> (r: Result<usize, ConfigError>)
    ensures
        match r {
            Ok(v) => int_setting(opt_view(value), 50, usize::MAX as nat) == Ok::<nat, ConfigError>(v as nat),
            Err(e) => int_setting(opt_view(value), 50, usize::MAX as nat) == Err::<nat, ConfigError>(e),
        },
{
    usize_setting(value, 50)
}

/// The RSI period (`RSI_PERIOD`, default 14).
pub fn rsi_period_setting(value: &Option<String>) -> (r: Result<usize, ConfigError>)
    ensures
        match r {
            Ok(v) => int_setting(opt_view(value), 14, usize::MAX as nat) == Ok::<nat, ConfigError>(v as nat),
            Err(e) => int_setting(opt_view(value), 14, usize::MAX as nat) == Err::<nat, ConfigError>(e),
        },
{
    usize_setting(value, 14)
}

/// The ATR period (`ATR_PERIOD`, default 14).
pub fn atr_period_setting(value: &Option<String>) -> (r: Result<usize, ConfigError>)
    ensures
        match r {
            Ok(v) => int_setting(opt_view(value), 14, usize::MAX as nat) == Ok::<nat, ConfigError>(v as nat),
            Err(e) => int_setting(opt_view(value), 14, usize::MAX as nat) == Err::<nat, ConfigError>(e),
        },
{
    usize_setting(value, 14)
}

/// A yes/no setting set to `true` or `false` takes that value whatever
/// its default (so `USE_TESTNET=true` selects the test network and
/// `USE_TESTNET=false` the production API); an unset one takes its
/// default; any other text is refused.
pub proof fn lemma_bool_setting_follows_text(text: Seq<char>, default: bool)
    ensures
        bool_setting_spec(Some("true"@), default) == Ok::<bool, ConfigError>(true),
        bool_setting_spec(Some("false"@), default) == Ok::<bool, ConfigError>(false),
        bool_setting_spec(None, default) == Ok::<bool, ConfigError>(default),
        text != "true"@ && text != "false"@ ==> bool_setting_spec(Some(text), default) == Err::<
            bool,
            ConfigError,
        >(ConfigError::InvalidBool),
        bool_setting_spec(Some(text), default) matches Ok(b) ==> text == (if b {
            "true"@
        } else {
            "false"@
        }),
{
    reveal_strlit("true");
    reveal_strlit("false");
    assert("true"@.len() == 4);
    assert("false"@.len() == 5);
}

} // verus!
