use robo_trading::cli::{live_start_confirmed, live_start_delay_seconds, menu_action, menu_continues, MenuAction, RunMode, CLI};
use robo_trading::error::TradingError;

#[test]
fn confirmations_accept_yes_in_two_languages() {
    for a in ["s", "sim", "y", "yes"] {
        assert!(CLI::is_confirmation(a));
    }
    for a in ["n", "nao", "no", "", "yes please", "Y"] {
        assert!(!CLI::is_confirmation(a));
    }
}

#[test]
fn run_modes_from_the_first_argument() {
    assert_eq!(RunMode::from_arg(None), Some(RunMode::Live));
    assert_eq!(RunMode::from_arg(Some("backtest")), Some(RunMode::Backtest));
    assert_eq!(RunMode::from_arg(Some("monte-carlo")), Some(RunMode::MonteCarlo));
    assert_eq!(RunMode::from_arg(Some("live")), Some(RunMode::Live));
    assert_eq!(RunMode::from_arg(Some("paper")), Some(RunMode::Paper));
    assert_eq!(RunMode::from_arg(Some("montecarlo")), None);
}

#[test]
fn error_messages_carry_their_kind() {
    assert_eq!(TradingError::ApiError("boom".to_string()).message(), "API error: boom");
    assert_eq!(TradingError::OrderError("x".to_string()).message(), "Invalid order: x");
    assert_eq!(TradingError::RiskError("r".to_string()).message(), "Risk management error: r");
    let io = std::io::Error::new(std::io::ErrorKind::Other, "disk full");
    assert_eq!(TradingError::IoError(io).message(), "IO error: disk full");
    let json = serde_json::from_str::<serde_json::Value>("{").unwrap_err();
    let text = json.to_string();
    assert_eq!(TradingError::JsonError(json).message(), format!("JSON parsing error: {}", text));
}

#[test]
fn outside_errors_convert_into_their_variants() {
    let io = std::io::Error::new(std::io::ErrorKind::Other, "gone");
    assert!(matches!(TradingError::from(io), TradingError::IoError(_)));
    let json = serde_json::from_str::<serde_json::Value>("[").unwrap_err();
    assert!(matches!(TradingError::from(json), TradingError::JsonError(_)));
    let http = reqwest::Client::new().get("not a url").build().unwrap_err();
    let text = http.to_string();
    let e = TradingError::from(http);
    assert!(matches!(e, TradingError::NetworkError(_)));
    assert_eq!(e.message(), format!("Network error: {}", text));
}

#[test]
fn menu_choices_lead_to_their_actions() {
    assert_eq!(menu_action("1"), MenuAction::Backtest);
    assert_eq!(menu_action("2"), MenuAction::MonteCarlo);
    assert_eq!(menu_action("3"), MenuAction::LiveTestnet);
    assert_eq!(menu_action("4"), MenuAction::LiveReal);
    assert_eq!(menu_action("5"), MenuAction::ShowLastBacktest);
    assert_eq!(menu_action("6"), MenuAction::ShowLastMonteCarlo);
    assert_eq!(menu_action("0"), MenuAction::Exit);
    for bad in ["", "7", "10", "01", "a", " 1"] {
        assert_eq!(menu_action(bad), MenuAction::Invalid);
    }
    assert!(!menu_continues(MenuAction::Exit));
    assert!(menu_continues(MenuAction::Invalid));
    assert!(menu_continues(MenuAction::Backtest));
}

#[test]
fn real_money_needs_two_confirmations() {
    assert!(live_start_confirmed(false, true, false));
    assert!(!live_start_confirmed(false, false, true));
    assert!(!live_start_confirmed(true, true, false));
    assert!(!live_start_confirmed(true, false, true));
    assert!(live_start_confirmed(true, true, true));
    assert_eq!(live_start_delay_seconds(true), 0);
    assert_eq!(live_start_delay_seconds(false), 10);
}
