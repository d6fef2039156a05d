use robo_trading::config::{
    atr_period_setting, ema_fast_setting, ema_slow_setting, max_positions_setting, rsi_period_setting,
    trading_pair_setting,
    bool_setting, parse_bool, u32_setting, usize_setting, BacktestConfig, ConfigError, ExchangeConfig,
    ExecutionConfig, LoggingConfig,
};
use robo_trading::text::IntParseError;

fn s(t: &str) -> Option<String> {
    Some(t.to_string())
}

#[test]
fn exchange_settings_need_both_keys() {
    let c = ExchangeConfig::from_settings(s("k"), s("x"), None).unwrap();
    assert_eq!(c.api_key, "k");
    assert_eq!(c.secret_key, "x");
    assert!(c.use_testnet);
    let c = ExchangeConfig::from_settings(s("k"), s("x"), s("false")).unwrap();
    assert!(!c.use_testnet);
    assert_eq!(ExchangeConfig::from_settings(None, s("x"), None).unwrap_err(), ConfigError::NotPresent);
    assert_eq!(ExchangeConfig::from_settings(s("k"), None, None).unwrap_err(), ConfigError::NotPresent);
    assert_eq!(ExchangeConfig::from_settings(s("k"), s("x"), s("yes")).unwrap_err(), ConfigError::InvalidBool);
}

#[test]
fn execution_settings_default_and_parse() {
    let c = ExecutionConfig::from_settings(None, None, None).unwrap();
    assert_eq!((c.order_retry_attempts, c.order_timeout_seconds, c.latency_simulation_ms), (3, 30, 0));
    let c = ExecutionConfig::from_settings(s("5"), s("+60"), s("250")).unwrap();
    assert_eq!((c.order_retry_attempts, c.order_timeout_seconds, c.latency_simulation_ms), (5, 60, 250));
    assert_eq!(
        ExecutionConfig::from_settings(s("x"), s("y"), None).unwrap_err(),
        ConfigError::InvalidInt(IntParseError::InvalidDigit)
    );
    assert_eq!(
        ExecutionConfig::from_settings(s("4294967296"), None, None).unwrap_err(),
        ConfigError::InvalidInt(IntParseError::PosOverflow)
    );
    assert_eq!(
        ExecutionConfig::from_settings(None, s(""), None).unwrap_err(),
        ConfigError::InvalidInt(IntParseError::Empty)
    );
}

#[test]
fn text_settings_default() {
    let l = LoggingConfig::from_settings(None, s("/tmp/x.log"));
    assert_eq!(l.log_level, "info");
    assert_eq!(l.log_file, "/tmp/x.log");
    let b = BacktestConfig::from_settings(None, None, None);
    assert_eq!(b.start_date, "2024-01-01");
    assert_eq!(b.end_date, "2024-12-31");
    assert_eq!(b.data_path, "./data/historical/");
}

#[test]
fn single_settings() {
    assert_eq!(parse_bool("true"), Some(true));
    assert_eq!(parse_bool("false"), Some(false));
    assert_eq!(parse_bool("True"), None);
    assert_eq!(bool_setting(&None, true), Ok(true));
    assert_eq!(u32_setting(&s("3"), 1), Ok(3));
    assert_eq!(usize_setting(&None, 14), Ok(14));
    assert_eq!(usize_setting(&s("20"), 14), Ok(20));
}

#[test]
fn config_error_messages_follow_std() {
    assert_eq!(ConfigError::NotPresent.message(), "environment variable not found");
    assert_eq!(ConfigError::InvalidBool.message(), "x".parse::<bool>().unwrap_err().to_string());
    assert_eq!(
        ConfigError::InvalidInt(IntParseError::Empty).message(),
        "".parse::<u32>().unwrap_err().to_string()
    );
    assert_eq!(
        ConfigError::InvalidInt(IntParseError::InvalidDigit).message(),
        "x".parse::<u32>().unwrap_err().to_string()
    );
    assert_eq!(
        ConfigError::InvalidInt(IntParseError::PosOverflow).message(),
        "99999999999".parse::<u32>().unwrap_err().to_string()
    );
}

#[test]
fn trading_and_strategy_defaults() {
    assert_eq!(trading_pair_setting(None), "BTCUSDT");
    assert_eq!(trading_pair_setting(s("ETHUSDT")), "ETHUSDT");
    assert_eq!(max_positions_setting(&None), Ok(3));
    assert_eq!(max_positions_setting(&s("5")), Ok(5));
    assert_eq!(ema_fast_setting(&None), Ok(20));
    assert_eq!(ema_slow_setting(&None), Ok(50));
    assert_eq!(rsi_period_setting(&None), Ok(14));
    assert_eq!(atr_period_setting(&None), Ok(14));
    assert_eq!(atr_period_setting(&s("x")), Err(ConfigError::InvalidInt(IntParseError::InvalidDigit)));
}
