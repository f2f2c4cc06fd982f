use binance::errors::Error;
use binance::json::FromJson;
use binance::json::Json;
use binance::json::NumberText;
use binance::model::AccountUpdateEvent;
use binance::model::Asks;
use binance::model::Balance;
use binance::model::Bids;
use binance::model::CommissionRates;
use binance::model::Decimal;
use binance::model::DepositAddress;
use binance::model::Empty;
use binance::model::Filters;
use binance::model::KlineSummary;
use binance::model::OrderCanceled;
use binance::model::RateLimit;
use binance::model::ServerTime;
use binance::model::SpotFuturesTransferType;
use binance::model::TransactionId;
use binance::spot::model::HistoricalDataDownloadId;
use binance::spot::model::HistoricalDataDownloadLink;
use binance::spot::model::UserDataStream;

fn read<T: FromJson>(text: &str) -> Option<T> {
    T::from_json(&Json::parse(text).unwrap())
}

#[test]
fn test_account_update_event() {
    let json = r#"
    {
  "e": "ACCOUNT_UPDATE",
  "E": 1564745798939,
  "T": 1564745798938,
  "a": {
    "m": "ORDER",
    "B": [
      {
        "a": "USDT",
        "wb": "122624.12345678",
        "cw": "100.12345678",
        "bc": "50.12345678"
      },
      {
        "a": "BUSD",
        "wb": "1.00000000",
        "cw": "0.00000000",
        "bc": "-49.12345678"
      }
    ],
    "P": [
      {
        "s": "BTCUSDT",
        "pa": "0",
        "ep": "0.00000",
        "cr": "200",
        "up": "0",
        "mt": "isolated",
        "iw": "0.00000000",
        "ps": "BOTH"
      },
      {
        "s": "BTCUSDT",
        "pa": "20",
        "ep": "6563.66500",
        "cr": "0",
        "up": "2850.21200",
        "mt": "isolated",
        "iw": "13200.70726908",
        "ps": "LONG"
      },
      {
        "s": "BTCUSDT",
        "pa": "-10",
        "ep": "6563.86000",
        "cr": "-45.04000000",
        "up": "-1423.15600",
        "mt": "isolated",
        "iw": "6570.42511771",
        "ps": "SHORT"
      }
    ]
  }
}
    "#;

    let res = r#"AccountUpdateEvent { event_type: "ACCOUNT_UPDATE", event_time: 1564745798939, data: AccountUpdateDataEvent { reason: "ORDER", balances: [EventBalance { asset: "USDT", wallet_balance: "122624.12345678", cross_wallet_balance: "100.12345678", balance_change: "50.12345678" }, EventBalance { asset: "BUSD", wallet_balance: "1.00000000", cross_wallet_balance: "0.00000000", balance_change: "-49.12345678" }], positions: [EventPosition { symbol: "BTCUSDT", position_amount: "0", entry_price: "0.00000", accumulated_realized: "200", unrealized_pnl: "0", margin_type: "isolated", isolated_wallet: "0.00000000", position_side: "BOTH" }, EventPosition { symbol: "BTCUSDT", position_amount: "20", entry_price: "6563.66500", accumulated_realized: "0", unrealized_pnl: "2850.21200", margin_type: "isolated", isolated_wallet: "13200.70726908", position_side: "LONG" }, EventPosition { symbol: "BTCUSDT", position_amount: "-10", entry_price: "6563.86000", accumulated_realized: "-45.04000000", unrealized_pnl: "-1423.15600", margin_type: "isolated", isolated_wallet: "6570.42511771", position_side: "SHORT" }] } }"#;
    let v: AccountUpdateEvent = read(json).unwrap();
    assert_eq!(format!("{v:?}"), res);
}

#[test]
fn a_missing_member_spoils_the_form() {
    assert_eq!(read::<ServerTime>("{\"serverTime\":1614694549948}"), Some(ServerTime { server_time: 1614694549948 }));
    assert_eq!(read::<ServerTime>("{}"), None);
    assert_eq!(read::<ServerTime>("{\"serverTime\":null}"), None);
    assert_eq!(read::<ServerTime>("{\"serverTime\":\"1\"}"), None);
    assert_eq!(read::<ServerTime>("{\"serverTime\":-1}"), None);
    assert_eq!(read::<ServerTime>("{\"serverTime\":1.5}"), None);
    assert_eq!(read::<ServerTime>("[1614694549948]"), None);
}

#[test]
fn a_document_without_content() {
    assert_eq!(read::<Empty>("{}"), Some(Empty {}));
    assert_eq!(read::<Empty>("{\"more\":1}"), Some(Empty {}));
    assert_eq!(read::<Empty>("[]"), None);
    assert_eq!(read::<Empty>("null"), None);
}

#[test]
fn optional_members_may_be_missing_or_null() {
    let all = read::<OrderCanceled>(r#"{"symbol":"LTCBTC","origClientOrderId":"a","orderId":4,"clientOrderId":"b"}"#).unwrap();
    assert_eq!(all.orig_client_order_id, Some("a".to_string()));
    assert_eq!(all.order_id, Some(4));
    assert_eq!(all.client_order_id, Some("b".to_string()));
    let none = read::<OrderCanceled>(r#"{"symbol":"LTCBTC","orderId":null}"#).unwrap();
    assert_eq!(none.symbol, "LTCBTC");
    assert_eq!(none.orig_client_order_id, None);
    assert_eq!(none.order_id, None);
    assert_eq!(none.client_order_id, None);
    assert_eq!(read::<OrderCanceled>(r#"{"symbol":"LTCBTC","orderId":"4"}"#), None);
}

#[test]
fn the_first_of_two_members_of_a_name_is_read() {
    let document = Json::Object(vec![
        ("asset".into(), Json::Str("BTC".into())),
        ("free".into(), Json::Str("1".into())),
        ("free".into(), Json::Str("2".into())),
        ("locked".into(), Json::Str("0".into())),
    ]);
    let balance = Balance::from_json(&document).unwrap();
    assert_eq!(balance, Balance { asset: "BTC".into(), free: "1".into(), locked: "0".into() });
}

#[test]
fn numbers_within_their_range() {
    let limit = read::<RateLimit>(r#"{"rateLimitType":"ORDERS","interval":"DAY","intervalNum":65535,"limit":160000}"#).unwrap();
    assert_eq!(limit.interval_num, 65535);
    assert_eq!(limit.limit, 160000);
    assert_eq!(read::<RateLimit>(r#"{"rateLimitType":"ORDERS","interval":"DAY","intervalNum":65536,"limit":1}"#), None);
    assert_eq!(read::<TransactionId>("{\"tranId\":18446744073709551615}"), Some(TransactionId { tran_id: u64::MAX }));
    assert_eq!(read::<TransactionId>("{\"tranId\":18446744073709551616}"), None);
    assert_eq!(read::<HistoricalDataDownloadId>("{\"id\":7}"), Some(HistoricalDataDownloadId { id: 7 }));
    assert_eq!(read::<i16>("-32768"), Some(i16::MIN));
    assert_eq!(read::<i16>("32767"), Some(i16::MAX));
    assert_eq!(read::<i16>("32768"), None);
    assert_eq!(read::<i16>("-32769"), None);
    assert_eq!(read::<i64>("9223372036854775807"), Some(i64::MAX));
    assert_eq!(read::<i64>("9223372036854775808"), None);
    assert_eq!(read::<i64>("-9223372036854775808"), Some(i64::MIN));
    assert_eq!(read::<u64>("0"), Some(0));
    assert_eq!(read::<bool>("true"), Some(true));
    assert_eq!(read::<bool>("1"), None);
    assert_eq!(read::<String>("\"a\\u00e9\""), Some("a\u{e9}".to_string()));
    assert_eq!(read::<Vec<u64>>("[1,2,3]"), Some(vec![1, 2, 3]));
    assert_eq!(read::<Vec<u64>>("[1,\"2\"]"), None);
    assert_eq!(read::<Vec<u64>>("{}"), None);
    assert_eq!(read::<NumberText>("5"), Some(NumberText { text: "5".into() }));
    assert_eq!(read::<NumberText>("-0.25"), Some(NumberText { text: "-0.25".into() }));
    assert_eq!(read::<NumberText>("\"5\""), None);
}

#[test]
fn nested_data() {
    let rates = read::<CommissionRates>(r#"{"symbol":"BTCUSDT","standardCommission":{"maker":"0.1","taker":"0.2","buyer":"0.3","seller":"0.4"},"taxCommission":{"maker":"0","taker":"0","buyer":"0","seller":"0"},"discount":{"enabledForAccount":true,"enabledForSymbol":false,"discountAsset":"BNB","discount":"0.75"}}"#).unwrap();
    assert_eq!(rates.symbol, "BTCUSDT");
    assert_eq!(rates.standard_commission.taker, "0.2");
    assert_eq!(rates.tax_commission.seller, "0");
    assert!(rates.discount.enabled_for_account);
    assert!(!rates.discount.enabled_for_symbol);
    assert_eq!(rates.discount.discount_asset, "BNB");
    let address = read::<DepositAddress>(r#"{"address":"1HPn8Rx2y6nNSfagQBKy27GB99Vbzg89wv","coin":"BTC","tag":"","url":"https://btc.com/1HPn8Rx2y6nNSfagQBKy27GB99Vbzg89wv"}"#).unwrap();
    assert_eq!(address.coin, "BTC");
    assert_eq!(address.tag, "");
    assert_eq!(read::<UserDataStream>("{\"listenKey\":\"k\"}").unwrap().listen_key, "k");
    assert_eq!(read::<HistoricalDataDownloadLink>("{\"link\":\"l\"}").unwrap().link, "l");
}

#[test]
fn decimal_numbers() {
    assert_eq!(Decimal::parse("4.00000000"), Some(Decimal { mantissa: 400000000, scale: 8 }));
    assert_eq!(Decimal::parse("-1.5"), Some(Decimal { mantissa: -15, scale: 1 }));
    assert_eq!(Decimal::parse("431"), Some(Decimal { mantissa: 431, scale: 0 }));
    assert_eq!(Decimal::parse("9.7e-7"), Some(Decimal { mantissa: 97, scale: 8 }));
    assert_eq!(Decimal::parse("1.2E3"), Some(Decimal { mantissa: 1200, scale: 0 }));
    assert_eq!(Decimal::parse(""), None);
    assert_eq!(Decimal::parse("abc"), None);
    assert_eq!(Decimal::parse("1e"), None);
    assert_eq!(read::<Decimal>("\"0.10\""), Some(Decimal { mantissa: 10, scale: 2 }));
    assert_eq!(read::<Decimal>("0.10"), None);
}

#[test]
fn price_levels() {
    let bid = Bids::new(Decimal { mantissa: 400000000, scale: 8 }, Decimal { mantissa: 43100000000, scale: 8 });
    assert_eq!(read::<Bids>("[\"4.00000000\",\"431.00000000\"]"), Some(bid));
    assert_eq!(read::<Bids>("{\"price\":\"4.00000000\",\"qty\":\"431.00000000\"}"), Some(bid));
    assert_eq!(read::<Bids>("[\"4.00000000\"]"), None);
    assert_eq!(read::<Bids>("[\"4.00000000\",\"431.00000000\",[]]"), None);
    assert_eq!(read::<Bids>("[4,431]"), None);
    assert_eq!(read::<Bids>("{\"price\":\"4\"}"), None);
    let ask = read::<Asks>("[\"0.0026\",\"100\"]").unwrap();
    assert_eq!(ask.price, Decimal { mantissa: 26, scale: 4 });
    assert_eq!(ask.qty, Decimal { mantissa: 100, scale: 0 });
}

#[test]
fn filters_by_their_tag() {
    assert_eq!(
        read::<Filters>(r#"{"filterType":"PRICE_FILTER","minPrice":"0.00000010","maxPrice":"100000.00000000","tickSize":"0.00000010"}"#),
        Some(Filters::PriceFilter { min_price: "0.00000010".into(), max_price: "100000.00000000".into(), tick_size: "0.00000010".into() })
    );
    assert_eq!(
        read::<Filters>(r#"{"filterType":"PERCENT_PRICE","multiplierUp":"5","multiplierDown":"0.2","avgPriceMins":5}"#),
        Some(Filters::PercentPrice { multiplier_up: "5".into(), multiplier_down: "0.2".into(), avg_price_mins: Some(NumberText { text: "5".into() }) })
    );
    assert_eq!(
        read::<Filters>(r#"{"filterType":"PERCENT_PRICE_BY_SIDE","bidMultiplierUp":"5","bidMultiplierDown":"0.2","askMultiplierUp":"5","askMultiplierDown":"0.2","avgPriceMins":1}"#),
        Some(Filters::PercentPriceBySide { bid_multiplier_up: "5".into(), bid_multiplier_down: "0.2".into(), ask_multiplier_up: "5".into(), ask_multiplier_down: "0.2".into(), avg_price_mins: Some(NumberText { text: "1".into() }) })
    );
    assert_eq!(
        read::<Filters>(r#"{"filterType":"LOT_SIZE","minQty":"0.01000000","maxQty":"100000.00000000","stepSize":"0.01000000"}"#),
        Some(Filters::LotSize { min_qty: "0.01000000".into(), max_qty: "100000.00000000".into(), step_size: "0.01000000".into() })
    );
    assert_eq!(
        read::<Filters>(r#"{"filterType":"MIN_NOTIONAL","minNotional":"0.00010000","applyToMarket":true,"avgPriceMins":5}"#),
        Some(Filters::MinNotional { notional: None, min_notional: Some("0.00010000".into()), apply_to_market: Some(true), avg_price_mins: Some(NumberText { text: "5".into() }) })
    );
    assert_eq!(
        read::<Filters>(r#"{"filterType":"NOTIONAL","notional":"1"}"#),
        Some(Filters::Notional { notional: Some("1".into()), min_notional: None, apply_to_market: None, avg_price_mins: None })
    );
    assert_eq!(read::<Filters>(r#"{"filterType":"ICEBERG_PARTS","limit":10}"#), Some(Filters::IcebergParts { limit: Some(10) }));
    assert_eq!(read::<Filters>(r#"{"filterType":"MAX_NUM_ORDERS","maxNumOrders":200}"#), Some(Filters::MaxNumOrders { max_num_orders: Some(200) }));
    assert_eq!(read::<Filters>(r#"{"filterType":"MAX_NUM_ALGO_ORDERS","maxNumAlgoOrders":5}"#), Some(Filters::MaxNumAlgoOrders { max_num_algo_orders: Some(5) }));
    assert_eq!(read::<Filters>(r#"{"filterType":"MAX_NUM_ICEBERG_ORDERS","maxNumIcebergOrders":5}"#), Some(Filters::MaxNumIcebergOrders { max_num_iceberg_orders: 5 }));
    assert_eq!(read::<Filters>(r#"{"filterType":"MAX_NUM_ICEBERG_ORDERS"}"#), None);
    assert_eq!(read::<Filters>(r#"{"filterType":"MAX_POSITION","maxPosition":"10.0"}"#), Some(Filters::MaxPosition { max_position: "10.0".into() }));
    assert_eq!(
        read::<Filters>(r#"{"filterType":"MARKET_LOT_SIZE","minQty":"0.00000000","maxQty":"8528.32329395","stepSize":"0.00000000"}"#),
        Some(Filters::MarketLotSize { min_qty: "0.00000000".into(), max_qty: "8528.32329395".into(), step_size: "0.00000000".into() })
    );
    assert_eq!(
        read::<Filters>(r#"{"filterType":"TRAILING_DELTA","minTrailingAboveDelta":10,"maxTrailingAboveDelta":2000,"minTrailingBelowDelta":10,"maxTrailingBelowDelta":2000}"#),
        Some(Filters::TrailingData { min_trailing_above_delta: Some(10), max_trailing_above_delta: Some(2000), min_trailing_below_delta: Some(10), max_trailing_below_delta: Some(2000) })
    );
    assert_eq!(read::<Filters>(r#"{"filterType":"SOMETHING_NEW"}"#), None);
    assert_eq!(read::<Filters>(r#"{"minPrice":"1","maxPrice":"2","tickSize":"3"}"#), None);
    assert_eq!(read::<Filters>(r#"{"filterType":"PRICE_FILTER","minPrice":"1"}"#), None);
}

fn row(text: &str) -> Vec<Json> {
    match Json::parse(text).unwrap() {
        Json::Array(items) => items,
        other => panic!("{other:?}"),
    }
}

const KLINE_ROW: &str = r#"[1499040000000,"0.01634790","0.80000000","0.01575800","0.01577100","148976.11427815",1499644799999,"2434.19055334",308,"1756.87402397","28.46694368","17928899.62484339"]"#;

#[test]
fn a_candlestick_from_a_row() {
    let kline = KlineSummary::try_from(&row(KLINE_ROW)).unwrap();
    assert_eq!(kline.open_time, 1_499_040_000_000);
    assert_eq!(kline.open, "0.01634790");
    assert_eq!(kline.high, "0.80000000");
    assert_eq!(kline.low, "0.01575800");
    assert_eq!(kline.close, "0.01577100");
    assert_eq!(kline.volume, "148976.11427815");
    assert_eq!(kline.close_time, 1_499_644_799_999);
    assert_eq!(kline.quote_asset_volume, "2434.19055334");
    assert_eq!(kline.number_of_trades, 308);
    assert_eq!(kline.taker_buy_base_asset_volume, "1756.87402397");
    assert_eq!(kline.taker_buy_quote_asset_volume, "28.46694368");
}

#[test]
fn a_row_that_is_too_short() {
    let names = ["open_time", "open", "high", "low", "close", "volume", "close_time", "quote_asset_volume", "number_of_trades", "taker_buy_base_asset_volume", "taker_buy_quote_asset_volume"];
    let full = row(KLINE_ROW);
    for (n, name) in names.iter().enumerate() {
        let mut short = row(KLINE_ROW);
        short.truncate(n);
        assert_eq!(
            KlineSummary::try_from(&short),
            Err(Error::KlineValueMissing(n, name.to_string()))
        );
    }
    let mut eleven = row(KLINE_ROW);
    eleven.truncate(11);
    assert!(KlineSummary::try_from(&eleven).is_ok());
    assert_eq!(full.len(), 12);
}

#[test]
fn a_row_with_a_value_of_the_wrong_type() {
    let text = KLINE_ROW.replace("308", "\"308\"");
    assert_eq!(KlineSummary::try_from(&row(&text)), Err(Error::Decode));
    let first = KLINE_ROW.replace("1499040000000", "null");
    assert_eq!(KlineSummary::try_from(&row(&first)), Err(Error::Decode));
    // The first value that fails decides.
    let mut both = row(&text);
    both.truncate(10);
    assert_eq!(KlineSummary::try_from(&both), Err(Error::Decode));
    let mut early = row(KLINE_ROW);
    early.truncate(3);
    early[1] = Json::Null;
    assert_eq!(KlineSummary::try_from(&early), Err(Error::Decode));
}

#[test]
fn a_candlestick_from_an_object() {
    let kline = read::<KlineSummary>(r#"{"open_time":1,"open":"a","high":"b","low":"c","close":"d","volume":"e","close_time":2,"quote_asset_volume":"f","number_of_trades":3,"taker_buy_base_asset_volume":"g","taker_buy_quote_asset_volume":"h"}"#).unwrap();
    assert_eq!(kline.close_time, 2);
    assert_eq!(kline.taker_buy_quote_asset_volume, "h");
}

#[test]
fn codes_of_transfer_directions() {
    assert_eq!(SpotFuturesTransferType::SpotToUsdtFutures.code(), 1);
    assert_eq!(SpotFuturesTransferType::UsdtFuturesToSpot.code(), 2);
    assert_eq!(SpotFuturesTransferType::SpotToCoinFutures.code(), 3);
    assert_eq!(SpotFuturesTransferType::CoinFuturesToSpot.code(), 4);
}

#[test]
fn json_documents() {
    let document = Json::parse(r#"{"a":[1,-2,3.5,"x",true,null,{"b":2}],"a2":18446744073709551615}"#).unwrap();
    let items = document.get("a").unwrap().as_array().unwrap();
    assert_eq!(items.len(), 7);
    assert_eq!(items[0].as_u64(), Some(1));
    assert_eq!(items[0].as_i64(), Some(1));
    assert_eq!(items[1].as_u64(), None);
    assert_eq!(items[1].as_i64(), Some(-2));
    assert_eq!(items[2].as_u64(), None);
    assert_eq!(items[2].as_i64(), None);
    assert_eq!(items[2].as_number_text().map(String::as_str), Some("3.5"));
    assert_eq!(items[3].as_str().map(String::as_str), Some("x"));
    assert_eq!(items[4].as_bool(), Some(true));
    assert!(matches!(items[5], Json::Null));
    assert!(items[6].is_object());
    assert_eq!(items[6].get("b").and_then(Json::as_u64), Some(2));
    assert!(items[6].get("c").is_none());
    assert!(items[0].get("b").is_none());
    assert_eq!(document.get("a2").unwrap().as_u64(), Some(u64::MAX));
    assert_eq!(document.get("a2").unwrap().as_i64(), None);
    assert!(Json::parse("{\"a\":}").is_none());
    assert!(Json::parse_bytes(b"[1, 2]").is_some());
    assert!(Json::parse_bytes(b"\xff").is_none());
    let twice = Json::parse(r#"{"k":1,"k":2}"#).unwrap();
    assert_eq!(twice.get("k").and_then(Json::as_u64), Some(2));
}
