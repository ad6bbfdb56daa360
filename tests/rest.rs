use binance::account::{FuturesAccount, MarginType, OrderRequest, OrderSide, OrderType, TimeInForce};
use binance::market::Market;
use binance::rest::{Endpoint, Method, Request};
use binance::text::{decimal_text, join, parse_unsigned, same_text};
use binance::userstream::UserStream;

fn pairs(r: &Request) -> Vec<(&str, &str)> {
    r.params.iter().map(|(k, v)| (k.as_str(), v.as_str())).collect()
}

#[test]
fn depth_requests() {
    let m = Market { recv_window: 5000 };
    let r = m.get_depth("BTCUSDT");
    assert_eq!(r.method, Method::Get);
    assert_eq!(r.endpoint, Endpoint::SpotDepth);
    assert_eq!(pairs(&r), vec![("symbol", "BTCUSDT")]);
    assert_eq!(r.recv_window, None);
    let r = m.get_custom_depth("BTCUSDT", 500);
    assert_eq!(pairs(&r), vec![("limit", "500"), ("symbol", "BTCUSDT")]);
}

#[test]
fn price_and_ticker_requests() {
    let m = Market { recv_window: 5000 };
    let r = m.get_all_prices();
    assert_eq!((r.method, r.endpoint, r.params.len()), (Method::Get, Endpoint::SpotPrice, 0));
    let r = m.get_price("ETHBTC");
    assert_eq!((r.endpoint, pairs(&r)), (Endpoint::SpotPrice, vec![("symbol", "ETHBTC")]));
    let r = m.get_average_price("ETHBTC");
    assert_eq!(r.endpoint, Endpoint::SpotAvgPrice);
    let r = m.get_all_book_tickers();
    assert_eq!((r.endpoint, r.params.len()), (Endpoint::SpotBookTicker, 0));
    let r = m.get_book_ticker("ETHBTC");
    assert_eq!((r.endpoint, pairs(&r)), (Endpoint::SpotBookTicker, vec![("symbol", "ETHBTC")]));
    let r = m.get_24h_price_stats("ETHBTC");
    assert_eq!(r.endpoint, Endpoint::SpotTicker24hr);
    let r = m.get_all_24h_price_stats();
    assert_eq!((r.endpoint, r.params.len()), (Endpoint::SpotTicker24hr, 0));
}

#[test]
fn kline_request_parameters() {
    let m = Market { recv_window: 5000 };
    let r = m.get_klines("BNBETH", "5m", Some(10), None, Some(1700000000000));
    assert_eq!(r.endpoint, Endpoint::SpotKlines);
    assert_eq!(
        pairs(&r),
        vec![("endTime", "1700000000000"), ("interval", "5m"), ("limit", "10"), ("symbol", "BNBETH")]
    );
    let r = m.get_klines("BNBETH", "1m", None, Some(0), None);
    assert_eq!(pairs(&r), vec![("interval", "1m"), ("startTime", "0"), ("symbol", "BNBETH")]);
}

#[test]
fn user_stream_requests() {
    let u = UserStream { recv_window: 5000 };
    let r = u.start();
    assert_eq!((r.method, r.endpoint, r.listen_key.clone()), (Method::Post, Endpoint::SpotUserDataStream, None));
    let r = u.keep_alive("key-1");
    assert_eq!((r.method, r.listen_key.as_deref()), (Method::Put, Some("key-1")));
    let r = u.close("key-1");
    assert_eq!((r.method, r.listen_key.as_deref()), (Method::Delete, Some("key-1")));
}

#[test]
fn account_settings_requests() {
    let a = FuturesAccount { recv_window: 6000 };
    let r = a.set_margin_type("BTCUSDT", MarginType::Isolated);
    assert_eq!((r.method, r.endpoint, r.recv_window), (Method::Post, Endpoint::FuturesMarginType, Some(6000)));
    assert_eq!(pairs(&r), vec![("marginType", "ISOLATED"), ("symbol", "BTCUSDT")]);
    let r = a.set_margin_type("BTCUSDT", MarginType::Cross);
    assert_eq!(pairs(&r), vec![("marginType", "CROSSED"), ("symbol", "BTCUSDT")]);
    let r = a.set_leverage("BTCUSDT", 20);
    assert_eq!(pairs(&r), vec![("leverage", "20"), ("symbol", "BTCUSDT")]);
}

#[test]
fn optional_symbol_requests() {
    let a = FuturesAccount { recv_window: 6000 };
    let r = a.cancel_all_open_orders(Some("BTCUSDT".to_string()));
    assert_eq!((r.method, r.endpoint), (Method::Delete, Endpoint::FuturesCancelAllOpenOrders));
    assert_eq!(pairs(&r), vec![("symbol", "BTCUSDT")]);
    let r = a.cancel_all_open_orders(None);
    assert!(r.params.is_empty());
    let r = a.get_all_open_orders(None);
    assert_eq!((r.endpoint, r.params.len()), (Endpoint::FuturesOpenOrders, 0));
    let r = a.get_positions(Some("ETHUSDT".to_string()));
    assert_eq!(pairs(&r), vec![("symbol", "ETHUSDT")]);
    let r = a.get_balance();
    assert_eq!((r.endpoint, r.recv_window), (Endpoint::FuturesBalance, Some(6000)));
}

#[test]
fn cancel_requests() {
    let a = FuturesAccount { recv_window: 6000 };
    let r = a.cancel_order("BTCUSDT", 42);
    assert_eq!(pairs(&r), vec![("orderId", "42"), ("symbol", "BTCUSDT")]);
    let r = a.cancel_orders("BTCUSDT", &[1, 22, 333]);
    assert_eq!(r.endpoint, Endpoint::FuturesBatchOrders);
    assert_eq!(pairs(&r), vec![("orderIdList", "[1,22,333]"), ("symbol", "BTCUSDT")]);
    let r = a.cancel_orders("BTCUSDT", &[]);
    assert_eq!(pairs(&r), vec![("orderIdList", "[]"), ("symbol", "BTCUSDT")]);
}

#[test]
fn order_parameters() {
    let a = FuturesAccount { recv_window: 6000 };
    let r = a.market_buy_order("BTCUSDT", "0.5", true);
    assert_eq!((r.method, r.endpoint), (Method::Post, Endpoint::FuturesOrder));
    assert_eq!(
        pairs(&r),
        vec![
            ("closePosition", "false"),
            ("quantity", "0.5"),
            ("reduceOnly", "true"),
            ("side", "BUY"),
            ("symbol", "BTCUSDT"),
            ("type", "MARKET"),
        ]
    );
    let r = a.stop_loss_long_position_order("BTCUSDT", "25000");
    assert_eq!(
        pairs(&r),
        vec![
            ("closePosition", "true"),
            ("side", "SELL"),
            ("stopPrice", "25000"),
            ("symbol", "BTCUSDT"),
            ("type", "STOP_MARKET"),
        ]
    );
    let r = a.trailing_stop_market_buy_order("BTCUSDT", "1", "30000", "0.5", false);
    assert_eq!(
        pairs(&r),
        vec![
            ("activationPrice", "30000"),
            ("callbackRate", "0.5"),
            ("closePosition", "false"),
            ("quantity", "1"),
            ("reduceOnly", "false"),
            ("side", "BUY"),
            ("symbol", "BTCUSDT"),
            ("type", "TRAILING_STOP_MARKET"),
        ]
    );
    let r = a.trailing_stop_market_sell_order("BTCUSDT", "1", "30000", "0.5", true);
    assert_eq!(
        pairs(&r),
        vec![
            ("activationPrice", "30000"),
            ("callbackRate", "0.5"),
            ("closePosition", "false"),
            ("quantity", "1"),
            ("reduceOnly", "true"),
            ("side", "SELL"),
            ("symbol", "BTCUSDT"),
            ("type", "TRAILING_STOP_MARKET"),
        ]
    );
    let r = a.take_profit_sell_order("BTCUSDT", "2", "31000", "30900", true);
    assert_eq!(
        pairs(&r),
        vec![
            ("closePosition", "false"),
            ("price", "31000"),
            ("quantity", "2"),
            ("reduceOnly", "true"),
            ("side", "SELL"),
            ("stopPrice", "30900"),
            ("symbol", "BTCUSDT"),
            ("type", "TAKE_PROFIT"),
        ]
    );
}

#[test]
fn build_order_with_time_in_force() {
    let a = FuturesAccount { recv_window: 6000 };
    let order = OrderRequest {
        activation_price: None,
        callback_rate: None,
        symbol: "ETHUSDT".to_string(),
        qty: Some("3".to_string()),
        price: Some("1800.5".to_string()),
        stop_price: None,
        order_side: OrderSide::Sell,
        order_type: OrderType::Limit,
        time_in_force: Some(TimeInForce::GTC),
        close_position: false,
        reduce_only: None,
    };
    let params = a.build_order(order);
    let got: Vec<(&str, &str)> = params.iter().map(|(k, v)| (k.as_str(), v.as_str())).collect();
    assert_eq!(
        got,
        vec![
            ("closePosition", "false"),
            ("price", "1800.5"),
            ("quantity", "3"),
            ("side", "SELL"),
            ("symbol", "ETHUSDT"),
            ("timeInForce", "GTC"),
            ("type", "LIMIT"),
        ]
    );
}

#[test]
fn wire_texts() {
    assert_eq!(TimeInForce::IOC.to_text(), "IOC");
    assert_eq!(TimeInForce::FOK.to_text(), "FOK");
    assert_eq!(OrderType::StopLossLimit.to_text(), "STOP_LOSS_LIMIT");
    assert_eq!(OrderType::TakeProfitMarket.to_text(), "TAKE_PROFIT_MARKET");
    assert_eq!(OrderSide::Buy.to_text(), "BUY");
}

#[test]
fn text_helpers() {
    assert_eq!(decimal_text(0), "0");
    assert_eq!(decimal_text(u64::MAX), "18446744073709551615");
    assert_eq!(parse_unsigned("007"), Some(7));
    assert_eq!(parse_unsigned("+"), None);
    assert_eq!(parse_unsigned("-1"), None);
    assert_eq!(join(&["a".to_string(), "b".to_string(), "c".to_string()], "/"), "a/b/c");
    assert_eq!(join(&[], "/"), "");
    assert!(same_text("abc", "abc"));
    assert!(!same_text("abc", "abd"));
}
