use robo_trading::api::{
    check_error_code, check_http_status, check_parsed_reply, check_reply, kline_params, order_id_params, order_params, query_string,
    set_param, symbol_params, BinanceClient,
};
use robo_trading::error::TradingError;
use robo_trading::types::{OrderSide, OrderType, Timeframe};

fn pairs(list: &[(&str, &str)]) -> Vec<(String, String)> {
    list.iter().map(|(k, v)| (k.to_string(), v.to_string())).collect()
}

#[test]
fn client_targets_testnet_or_production() {
    let test = BinanceClient::new("k".to_string(), "s".to_string(), true);
    assert_eq!(test.base_url(), "https://testnet.binance.vision");
    assert_eq!(test.api_key(), "k");
    let prod = BinanceClient::new("k".to_string(), "s".to_string(), false);
    assert_eq!(prod.base_url(), "https://api.binance.com");
}

#[test]
fn joins_query_parameters_in_order() {
    assert_eq!(query_string(&Vec::new()), "");
    assert_eq!(query_string(&pairs(&[("symbol", "BTCUSDT")])), "symbol=BTCUSDT");
    assert_eq!(
        query_string(&pairs(&[("symbol", "BTCUSDT"), ("interval", "1h"), ("limit", "100")])),
        "symbol=BTCUSDT&interval=1h&limit=100"
    );
}

#[test]
fn set_param_replaces_or_appends() {
    let mut p = pairs(&[("a", "1"), ("timestamp", "5"), ("b", "2")]);
    set_param(&mut p, "timestamp", "9".to_string());
    assert_eq!(p, pairs(&[("a", "1"), ("timestamp", "9"), ("b", "2")]));
    set_param(&mut p, "c", "3".to_string());
    assert_eq!(p, pairs(&[("a", "1"), ("timestamp", "9"), ("b", "2"), ("c", "3")]));
}

#[test]
fn signs_with_hmac_sha256_in_lower_hex() {
    let client = BinanceClient::new("api".to_string(), "key".to_string(), true);
    assert_eq!(
        client.sign("The quick brown fox jumps over the lazy dog"),
        "f7bc83f430538424b13298e6aa6fb143ef4d59a14946175997479dbc2d1a3cd8"
    );
}

#[test]
fn signed_query_matches_the_exchange_documentation_example() {
    let client = BinanceClient::new(
        "vmPUZE6mv9SD5VNHk4HlWFsOr6aKE2zvsw0MuIgwCIPy6utIco14y7Ju91duEh8A".to_string(),
        "NhqPtmdSJYdKjVHjA7PZj4Mge3R5YNiP1e3UZjInClVN65XAbvqqM6A7H5fATj0j".to_string(),
        false,
    );
    let params = pairs(&[
        ("symbol", "LTCBTC"),
        ("side", "BUY"),
        ("type", "LIMIT"),
        ("timeInForce", "GTC"),
        ("quantity", "1"),
        ("price", "0.1"),
        ("recvWindow", "5000"),
    ]);
    let q = client.build_signed_query(params, 1499827319559);
    assert_eq!(
        q,
        "symbol=LTCBTC&side=BUY&type=LIMIT&timeInForce=GTC&quantity=1&price=0.1&recvWindow=5000&timestamp=1499827319559&signature=c8db56825ae71d6d79447849e617115f4a920fa2acdcab2b053c4b2838bd6b71"
    );
}

#[test]
fn signed_query_appends_timestamp_and_signature() {
    let client = BinanceClient::new("a".to_string(), "test_secret".to_string(), true);
    let q = client.build_signed_query(symbol_params("BTCUSDT"), 1700000000000);
    assert_eq!(
        q,
        "symbol=BTCUSDT&timestamp=1700000000000&signature=343e1db965b0f65fd501d970a8af06c8351ec494fd09157959b8733639533d65"
    );
    let signature = q.rsplit('=').next().unwrap();
    assert_eq!(signature.len(), 64);
}

#[test]
fn builds_endpoint_urls() {
    let client = BinanceClient::new("a".to_string(), "b".to_string(), true);
    assert_eq!(
        client.endpoint_url("ticker/price", "symbol=BTCUSDT"),
        "https://testnet.binance.vision/api/v3/ticker/price?symbol=BTCUSDT"
    );
    assert_eq!(client.endpoint_url("ping", ""), "https://testnet.binance.vision/api/v3/ping?");
}

#[test]
fn builds_request_parameters() {
    assert_eq!(symbol_params("ETHUSDT"), pairs(&[("symbol", "ETHUSDT")]));
    assert_eq!(
        kline_params("BTCUSDT", Timeframe::H1, 1000),
        pairs(&[("symbol", "BTCUSDT"), ("interval", "1h"), ("limit", "1000")])
    );
    assert_eq!(
        order_id_params("BTCUSDT", "12345"),
        pairs(&[("symbol", "BTCUSDT"), ("orderId", "12345")])
    );
}

#[test]
fn builds_order_parameters_per_order_kind() {
    assert_eq!(
        order_params("BTCUSDT", OrderSide::Buy, OrderType::Market, "0.10000000", None, None, Some("robo_1")),
        pairs(&[
            ("symbol", "BTCUSDT"),
            ("side", "BUY"),
            ("type", "MARKET"),
            ("quantity", "0.10000000"),
            ("newClientOrderId", "robo_1"),
        ])
    );
    assert_eq!(
        order_params("BTCUSDT", OrderSide::Sell, OrderType::Limit, "1.00000000", Some("50000.00000000"), None, None),
        pairs(&[
            ("symbol", "BTCUSDT"),
            ("side", "SELL"),
            ("type", "LIMIT"),
            ("quantity", "1.00000000"),
            ("price", "50000.00000000"),
            ("timeInForce", "GTC"),
        ])
    );
    assert_eq!(
        order_params("BTCUSDT", OrderSide::Sell, OrderType::StopLoss, "1", None, Some("49000"), Some("x")),
        pairs(&[
            ("symbol", "BTCUSDT"),
            ("side", "SELL"),
            ("type", "STOP_LOSS"),
            ("quantity", "1"),
            ("stopPrice", "49000"),
            ("newClientOrderId", "x"),
        ])
    );
}

#[test]
fn refuses_unsuccessful_http_status() {
    assert!(check_http_status(true, "200 OK", "{}").is_ok());
    match check_http_status(false, "400 Bad Request", "{\"code\":-1100}") {
        Err(TradingError::ApiError(m)) => assert_eq!(m, "HTTP 400 Bad Request: {\"code\":-1100}"),
        other => panic!("unexpected {:?}", other),
    }
}

#[test]
fn refuses_nonzero_error_codes() {
    assert!(check_error_code(None, None).is_ok());
    assert!(check_error_code(Some(0), Some("fine")).is_ok());
    match check_error_code(Some(-1121), Some("Invalid symbol.")) {
        Err(TradingError::ApiError(m)) => assert_eq!(m, "Invalid symbol. (code: -1121)"),
        other => panic!("unexpected {:?}", other),
    }
    match check_error_code(Some(7), None) {
        Err(TradingError::ApiError(m)) => assert_eq!(m, "Unknown error (code: 7)"),
        other => panic!("unexpected {:?}", other),
    }
}

#[test]
fn reply_with_error_code_is_refused() {
    match check_reply(true, "200 OK", "{\"code\":-1121,\"msg\":\"Invalid symbol.\"}") {
        Err(TradingError::ApiError(m)) => assert_eq!(m, "Invalid symbol. (code: -1121)"),
        other => panic!("unexpected {:?}", other),
    }
    match check_reply(true, "200 OK", "{\"code\":-2}") {
        Err(TradingError::ApiError(m)) => assert_eq!(m, "Unknown error (code: -2)"),
        other => panic!("unexpected {:?}", other),
    }
    match check_reply(true, "200 OK", "{\"code\":5,\"msg\":7}") {
        Err(TradingError::ApiError(m)) => assert_eq!(m, "Unknown error (code: 5)"),
        other => panic!("unexpected {:?}", other),
    }
}

#[test]
fn reply_without_error_code_is_returned() {
    let v = check_reply(true, "200 OK", "{\"price\":\"42.5\"}").unwrap();
    assert_eq!(v["price"].as_str(), Some("42.5"));
    assert!(check_reply(true, "200 OK", "{\"code\":0,\"msg\":\"ok\"}").is_ok());
    assert!(check_reply(true, "200 OK", "{\"code\":\"x\"}").is_ok());
    assert!(check_reply(true, "200 OK", "{\"code\":1.5}").is_ok());
    let arr = check_reply(true, "200 OK", "[1,2]").unwrap();
    assert_eq!(arr.as_array().map(|a| a.len()), Some(2));
}

#[test]
fn reply_that_is_not_json_is_refused() {
    match check_reply(true, "200 OK", "not json") {
        Err(TradingError::JsonError(_)) => {}
        other => panic!("unexpected {:?}", other),
    }
}

#[test]
fn reply_with_error_status_is_refused_before_parsing() {
    match check_reply(false, "400 Bad Request", "not json") {
        Err(TradingError::ApiError(m)) => assert_eq!(m, "HTTP 400 Bad Request: not json"),
        other => panic!("unexpected {:?}", other),
    }
}

#[test]
fn parsed_reply_gives_back_its_document() {
    let doc: serde_json::Value = serde_json::from_str("{\"orderId\":17}").unwrap();
    let out = check_parsed_reply(Ok((doc.clone(), None, None))).unwrap();
    assert_eq!(out, doc);
    let out = check_parsed_reply(Ok((doc.clone(), Some(Some(0)), Some(None)))).unwrap();
    assert_eq!(out, doc);
    let out = check_parsed_reply(Ok((doc.clone(), Some(None), None))).unwrap();
    assert_eq!(out, doc);
}

#[test]
fn parsed_reply_with_error_code_or_parse_error_is_refused() {
    let doc = serde_json::Value::Null;
    match check_parsed_reply(Ok((doc, Some(Some(-1013)), Some(Some("Filter failure".to_string()))))) {
        Err(TradingError::ApiError(m)) => assert_eq!(m, "Filter failure (code: -1013)"),
        other => panic!("unexpected {:?}", other),
    }
    let err = serde_json::from_str::<serde_json::Value>("{").unwrap_err();
    match check_parsed_reply(Err(err)) {
        Err(TradingError::JsonError(_)) => {}
        other => panic!("unexpected {:?}", other),
    }
}
