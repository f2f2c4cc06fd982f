use binance::account::build_order;
use binance::account::build_quote_quantity_order;
use binance::account::owned;
use binance::account::Account;
use binance::account::DownloadWindows;
use binance::account::OrderQuoteQuantityRequest;
use binance::account::OrderRequest;
use binance::account::OrderSide;
use binance::account::OrderType;
use binance::account::TimeInForce;
use binance::account::DOWNLOAD_SPAN;
use binance::api::Binance;
use binance::client::Method;
use binance::client::Request;
use binance::config::Config;
use binance::errors::Error;
use binance::model::Balance;
use binance::util::build_request;
use hmac::Mac;

const SECRET: &str = "secret";

fn account() -> Account {
    let config = Config::default().set_recv_window(0);
    Binance::new_with_config(Some("key".into()), Some(SECRET.into()), &config)
}

fn signature(payload: &str) -> String {
    let mut mac = hmac::Hmac::<sha2::Sha256>::new_from_slice(SECRET.as_bytes()).unwrap();
    mac.update(payload.as_bytes());
    hex::encode(mac.finalize().into_bytes())
}

/// Checks a signed plan and hands back its query without timestamp and
/// signature.
fn query_of(plan: &Request, method: Method, path: &str) -> String {
    assert_eq!(plan.method, method);
    assert_eq!(plan.body, None);
    assert_eq!(plan.headers.len(), 3);
    let prefix = format!("https://api.binance.com{path}?");
    let signed = plan.url.strip_prefix(&prefix).unwrap();
    let (payload, given) = signed.rsplit_once("&signature=").unwrap();
    assert_eq!(given, signature(payload));
    let mut rest = Vec::new();
    let mut stamps = 0;
    for pair in payload.split('&') {
        match pair.strip_prefix("timestamp=") {
            Some(stamp) => {
                assert!(stamp.parse::<u64>().unwrap() > 1_600_000_000_000);
                stamps += 1;
            }
            None => rest.push(pair),
        }
    }
    assert_eq!(stamps, 1);
    rest.join("&")
}

#[test]
fn names_of_order_parts() {
    assert_eq!(OrderType::Limit.to_string(), "LIMIT");
    assert_eq!(OrderType::Market.to_string(), "MARKET");
    assert_eq!(OrderType::StopLossLimit.to_string(), "STOP_LOSS_LIMIT");
    assert_eq!(OrderSide::Buy.to_string(), "BUY");
    assert_eq!(OrderSide::Sell.to_string(), "SELL");
    assert_eq!(TimeInForce::GTC.to_string(), "GTC");
    assert_eq!(TimeInForce::IOC.to_string(), "IOC");
    assert_eq!(TimeInForce::FOK.to_string(), "FOK");
}

#[test]
fn parameters_of_a_limit_order() {
    let order = OrderRequest {
        symbol: "LTCBTC".into(),
        qty: "1".into(),
        price: Some("0.1".into()),
        stop_price: None,
        order_side: OrderSide::Buy,
        order_type: OrderType::Limit,
        time_in_force: TimeInForce::GTC,
        new_client_order_id: None,
    };
    assert_eq!(
        build_request(build_order(order)),
        "price=0.1&quantity=1&side=BUY&symbol=LTCBTC&timeInForce=GTC&type=LIMIT"
    );
}

#[test]
fn parameters_of_a_market_order() {
    let order = OrderRequest {
        symbol: "LTCBTC".into(),
        qty: "2.5".into(),
        price: None,
        stop_price: None,
        order_side: OrderSide::Sell,
        order_type: OrderType::Market,
        time_in_force: TimeInForce::IOC,
        new_client_order_id: None,
    };
    assert_eq!(
        build_request(build_order(order)),
        "quantity=2.5&side=SELL&symbol=LTCBTC&type=MARKET"
    );
}

#[test]
fn parameters_of_an_order_with_every_part() {
    let order = OrderRequest {
        symbol: "LTCBTC".into(),
        qty: "1".into(),
        price: Some("0.1".into()),
        stop_price: Some("0.09".into()),
        order_side: OrderSide::Sell,
        order_type: OrderType::StopLossLimit,
        time_in_force: TimeInForce::FOK,
        new_client_order_id: Some("mine".into()),
    };
    assert_eq!(
        build_request(build_order(order)),
        "newClientOrderId=mine&price=0.1&quantity=1&side=SELL&stopPrice=0.09&symbol=LTCBTC&timeInForce=FOK&type=STOP_LOSS_LIMIT"
    );
}

#[test]
fn parameters_of_an_order_by_quote_quantity() {
    let order = OrderQuoteQuantityRequest {
        symbol: "LTCBTC".into(),
        quote_order_qty: "10".into(),
        price: None,
        order_side: OrderSide::Buy,
        order_type: OrderType::Market,
        time_in_force: TimeInForce::GTC,
        new_client_order_id: Some("id".into()),
    };
    assert_eq!(
        build_request(build_quote_quantity_order(order)),
        "newClientOrderId=id&quoteOrderQty=10&side=BUY&symbol=LTCBTC&type=MARKET"
    );
    let priced = OrderQuoteQuantityRequest {
        symbol: "LTCBTC".into(),
        quote_order_qty: "10".into(),
        price: Some("3".into()),
        order_side: OrderSide::Buy,
        order_type: OrderType::Limit,
        time_in_force: TimeInForce::GTC,
        new_client_order_id: None,
    };
    assert_eq!(
        build_request(build_quote_quantity_order(priced)),
        "price=3&quoteOrderQty=10&side=BUY&symbol=LTCBTC&timeInForce=GTC&type=LIMIT"
    );
}

#[test]
fn requests_about_the_account() {
    let a = account();
    assert_eq!(query_of(&a.get_account().unwrap(), Method::Get, "/api/v3/account"), "");
    assert_eq!(
        query_of(&a.get_open_orders("LTCBTC").unwrap(), Method::Get, "/api/v3/openOrders"),
        "symbol=LTCBTC"
    );
    assert_eq!(query_of(&a.get_all_open_orders().unwrap(), Method::Get, "/api/v3/openOrders"), "");
    assert_eq!(
        query_of(&a.cancel_all_open_orders("LTCBTC").unwrap(), Method::Delete, "/api/v3/openOrders"),
        "symbol=LTCBTC"
    );
    assert_eq!(
        query_of(&a.order_status("LTCBTC", 42).unwrap(), Method::Get, "/api/v3/order"),
        "orderId=42&symbol=LTCBTC"
    );
    assert_eq!(
        query_of(&a.test_order_status("LTCBTC", 42).unwrap(), Method::Get, "/api/v3/order/test"),
        "orderId=42&symbol=LTCBTC"
    );
    assert_eq!(
        query_of(&a.cancel_order("LTCBTC", 42).unwrap(), Method::Delete, "/api/v3/order"),
        "orderId=42&symbol=LTCBTC"
    );
    assert_eq!(
        query_of(&a.cancel_order_with_client_id("LTCBTC", "mine").unwrap(), Method::Delete, "/api/v3/order"),
        "origClientOrderId=mine&symbol=LTCBTC"
    );
    assert_eq!(
        query_of(&a.test_cancel_order("LTCBTC", 42).unwrap(), Method::Delete, "/api/v3/order/test"),
        "orderId=42&symbol=LTCBTC"
    );
    assert_eq!(
        query_of(&a.trade_history("LTCBTC").unwrap(), Method::Get, "/api/v3/myTrades"),
        "symbol=LTCBTC"
    );
    assert_eq!(
        query_of(&a.get_commission("LTCBTC").unwrap(), Method::Get, "/api/v3/account/commission"),
        "symbol=LTCBTC"
    );
}

#[test]
fn requests_that_place_orders() {
    let a = account();
    assert_eq!(
        query_of(&a.limit_buy("LTCBTC", "1", Some("0.1")).unwrap(), Method::Post, "/api/v3/order"),
        "price=0.1&quantity=1&side=BUY&symbol=LTCBTC&timeInForce=GTC&type=LIMIT"
    );
    assert_eq!(
        query_of(&a.test_limit_buy("LTCBTC", "1", Some("0.1")).unwrap(), Method::Post, "/api/v3/order/test"),
        "price=0.1&quantity=1&side=BUY&symbol=LTCBTC&timeInForce=GTC&type=LIMIT"
    );
    assert_eq!(
        query_of(&a.limit_sell("LTCBTC", "1", None).unwrap(), Method::Post, "/api/v3/order"),
        "quantity=1&side=SELL&symbol=LTCBTC&type=LIMIT"
    );
    assert_eq!(
        query_of(&a.test_limit_sell("LTCBTC", "1", Some("2")).unwrap(), Method::Post, "/api/v3/order/test"),
        "price=2&quantity=1&side=SELL&symbol=LTCBTC&timeInForce=GTC&type=LIMIT"
    );
    assert_eq!(
        query_of(&a.market_buy("LTCBTC", "1").unwrap(), Method::Post, "/api/v3/order"),
        "quantity=1&side=BUY&symbol=LTCBTC&type=MARKET"
    );
    assert_eq!(
        query_of(&a.test_market_buy("LTCBTC", "1").unwrap(), Method::Post, "/api/v3/order/test"),
        "quantity=1&side=BUY&symbol=LTCBTC&type=MARKET"
    );
    assert_eq!(
        query_of(&a.market_sell("LTCBTC", "1").unwrap(), Method::Post, "/api/v3/order"),
        "quantity=1&side=SELL&symbol=LTCBTC&type=MARKET"
    );
    assert_eq!(
        query_of(&a.test_market_sell("LTCBTC", "1").unwrap(), Method::Post, "/api/v3/order/test"),
        "quantity=1&side=SELL&symbol=LTCBTC&type=MARKET"
    );
    assert_eq!(
        query_of(&a.market_buy_using_quote_quantity("LTCBTC", "10").unwrap(), Method::Post, "/api/v3/order"),
        "quoteOrderQty=10&side=BUY&symbol=LTCBTC&type=MARKET"
    );
    assert_eq!(
        query_of(&a.test_market_buy_using_quote_quantity("LTCBTC", "10").unwrap(), Method::Post, "/api/v3/order/test"),
        "quoteOrderQty=10&side=BUY&symbol=LTCBTC&type=MARKET"
    );
    assert_eq!(
        query_of(&a.market_sell_using_quote_quantity("LTCBTC", "10").unwrap(), Method::Post, "/api/v3/order"),
        "quoteOrderQty=10&side=SELL&symbol=LTCBTC&type=MARKET"
    );
    assert_eq!(
        query_of(&a.test_market_sell_using_quote_quantity("LTCBTC", "10").unwrap(), Method::Post, "/api/v3/order/test"),
        "quoteOrderQty=10&side=SELL&symbol=LTCBTC&type=MARKET"
    );
    assert_eq!(
        query_of(&a.stop_limit_buy_order("LTCBTC", "1", Some("0.1"), "0.09", TimeInForce::GTC).unwrap(), Method::Post, "/api/v3/order"),
        "price=0.1&quantity=1&side=BUY&stopPrice=0.09&symbol=LTCBTC&timeInForce=GTC&type=STOP_LOSS_LIMIT"
    );
    assert_eq!(
        query_of(&a.test_stop_limit_buy_order("LTCBTC", "1", Some("0.1"), "0.09", TimeInForce::IOC).unwrap(), Method::Post, "/api/v3/order/test"),
        "price=0.1&quantity=1&side=BUY&stopPrice=0.09&symbol=LTCBTC&timeInForce=IOC&type=STOP_LOSS_LIMIT"
    );
    assert_eq!(
        query_of(&a.stop_limit_sell_order("LTCBTC", "1", Some("0.1"), "0.09", TimeInForce::FOK).unwrap(), Method::Post, "/api/v3/order"),
        "price=0.1&quantity=1&side=SELL&stopPrice=0.09&symbol=LTCBTC&timeInForce=FOK&type=STOP_LOSS_LIMIT"
    );
    assert_eq!(
        query_of(&a.test_stop_limit_sell_order("LTCBTC", "1", None, "0.09", TimeInForce::FOK).unwrap(), Method::Post, "/api/v3/order/test"),
        "quantity=1&side=SELL&stopPrice=0.09&symbol=LTCBTC&type=STOP_LOSS_LIMIT"
    );
    assert_eq!(
        query_of(
            &a.custom_order("LTCBTC", "1", Some("0.1"), Some("0.09"), OrderSide::Buy, OrderType::Limit, TimeInForce::GTC, Some("mine".into())).unwrap(),
            Method::Post,
            "/api/v3/order"
        ),
        "newClientOrderId=mine&price=0.1&quantity=1&side=BUY&stopPrice=0.09&symbol=LTCBTC&timeInForce=GTC&type=LIMIT"
    );
    assert_eq!(
        query_of(
            &a.test_custom_order("LTCBTC", "1", None, None, OrderSide::Sell, OrderType::Market, TimeInForce::GTC, None).unwrap(),
            Method::Post,
            "/api/v3/order/test"
        ),
        "quantity=1&side=SELL&symbol=LTCBTC&type=MARKET"
    );
}

#[test]
fn the_window_is_sent_when_it_is_positive() {
    let config = Config::default();
    let a: Account = Binance::new_with_config(Some("key".into()), Some(SECRET.into()), &config);
    assert_eq!(a.recv_window, 5000);
    let plan = a.get_account().unwrap();
    assert!(plan.url.starts_with("https://api.binance.com/api/v3/account?recvWindow=5000&timestamp="));
}

#[test]
fn a_key_that_cannot_be_sent() {
    let config = Config::default();
    let a: Account = Binance::new_with_config(Some("k\u{1}".into()), None, &config);
    assert_eq!(a.get_account(), Err(Error::InvalidHeader));
    assert_eq!(a.market_buy("LTCBTC", "1"), Err(Error::InvalidHeader));
}

#[test]
fn balance_of_an_asset() {
    let balances = vec![
        Balance { asset: "BTC".into(), free: "1".into(), locked: "0".into() },
        Balance { asset: "LTC".into(), free: "2".into(), locked: "0".into() },
        Balance { asset: "BTC".into(), free: "3".into(), locked: "0".into() },
    ];
    let a = account();
    assert_eq!(a.get_balance(&balances, "LTC").unwrap().free, "2");
    assert_eq!(a.get_balance(&balances, "BTC").unwrap().free, "1");
    assert_eq!(a.get_balance(&balances, "btc"), Err(Error::AssetNotFound));
    assert_eq!(a.get_balance(&Vec::new(), "BTC"), Err(Error::AssetNotFound));
}

#[test]
fn request_for_a_download() {
    let a = account();
    let plan = a
        .download_hist_data_get_download_id("BTCUSDT", 1_600_000_000_000, 1_607_776_000_000, "T_TRADE", 5)
        .unwrap();
    assert_eq!(plan.method, Method::Post);
    let prefix = "https://api.binance.com/sapi/v1/futuresHistDataId?dataType=T_TRADE&endTime=1607776000000&startTime=1600000000000&symbol=BTCUSDT&timestamp=";
    let rest = plan.url.strip_prefix(prefix).unwrap();
    let (stamp, _) = rest.split_once("&signature=").unwrap();
    // The timestamp given is replaced by the clock's.
    assert_ne!(stamp, "5");
    assert!(stamp.parse::<u64>().unwrap() > 1_600_000_000_000);
}

#[test]
fn windows_of_a_download() {
    assert_eq!(DOWNLOAD_SPAN, 3 * 30 * 24 * 60 * 60 * 1000);
    let start = 1_000;
    let end = start + 2 * DOWNLOAD_SPAN + 7;
    let mut windows = DownloadWindows::new(start, end);
    let mut seen = Vec::new();
    while let Some(window) = windows.next() {
        seen.push(window);
        windows.advance();
    }
    assert_eq!(
        seen,
        vec![
            (start, start + DOWNLOAD_SPAN),
            (start + DOWNLOAD_SPAN, start + 2 * DOWNLOAD_SPAN),
            (start + 2 * DOWNLOAD_SPAN, end),
        ]
    );
    windows.advance();
    assert_eq!(windows.next(), None);
}

#[test]
fn windows_of_a_short_and_of_an_empty_download() {
    let mut short = DownloadWindows::new(5, 6);
    assert_eq!(short.next(), Some((5, 6)));
    short.advance();
    assert_eq!(short.next(), None);
    assert_eq!(DownloadWindows::new(9, 9).next(), None);
    let exact = DownloadWindows::new(0, DOWNLOAD_SPAN);
    assert_eq!(exact.next(), Some((0, DOWNLOAD_SPAN)));
    let top = DownloadWindows::new(u128::MAX - 1, u128::MAX);
    assert_eq!(top.next(), Some((u128::MAX - 1, u128::MAX)));
}

#[test]
fn optional_texts() {
    assert_eq!(owned(Some("a")), Some("a".to_string()));
    assert_eq!(owned(None), None);
}
