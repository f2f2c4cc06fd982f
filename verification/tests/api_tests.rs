use binance::api::Futures;
use binance::api::Sapi;
use binance::api::Spot;
use binance::api::API;
use binance::text::compare_bytes;
use binance::text::compare_str;
use binance::text::starts_with;
use binance::text::str_eq;
use binance::text::u128_to_string;
use binance::text::u64_to_string;
use binance::text::KeyOrder;

#[test]
fn paths_of_spot_routes() {
    let expected = [
        (Spot::Ping, "/api/v3/ping"),
        (Spot::Time, "/api/v3/time"),
        (Spot::ExchangeInfo, "/api/v3/exchangeInfo"),
        (Spot::Depth, "/api/v3/depth"),
        (Spot::Trades, "/api/v3/trades"),
        (Spot::HistoricalTrades, "/api/v3/historicalTrades"),
        (Spot::AggTrades, "/api/v3/aggTrades"),
        (Spot::Klines, "/api/v3/klines"),
        (Spot::AvgPrice, "/api/v3/avgPrice"),
        (Spot::Ticker24hr, "/api/v3/ticker/24hr"),
        (Spot::Price, "/api/v3/ticker/price"),
        (Spot::BookTicker, "/api/v3/ticker/bookTicker"),
        (Spot::Order, "/api/v3/order"),
        (Spot::OrderTest, "/api/v3/order/test"),
        (Spot::OpenOrders, "/api/v3/openOrders"),
        (Spot::AllOrders, "/api/v3/allOrders"),
        (Spot::Oco, "/api/v3/order/oco"),
        (Spot::OrderList, "/api/v3/orderList"),
        (Spot::AllOrderList, "/api/v3/allOrderList"),
        (Spot::OpenOrderList, "/api/v3/openOrderList"),
        (Spot::Account, "/api/v3/account"),
        (Spot::AccountCommission, "/api/v3/account/commission"),
        (Spot::MyTrades, "/api/v3/myTrades"),
        (Spot::UserDataStream, "/api/v3/userDataStream"),
    ];
    for (route, path) in expected {
        assert_eq!(String::from(API::Spot(route)), path);
    }
}

#[test]
fn paths_of_savings_routes() {
    assert_eq!(String::from(API::Savings(Sapi::AllCoins)), "/sapi/v1/capital/config/getall");
    assert_eq!(String::from(API::Savings(Sapi::AssetDetail)), "/sapi/v1/asset/assetDetail");
    assert_eq!(String::from(API::Savings(Sapi::DepositAddress)), "/sapi/v1/capital/deposit/address");
    assert_eq!(String::from(API::Savings(Sapi::SpotFuturesTransfer)), "/sapi/v1/futures/transfer");
}

#[test]
fn paths_of_futures_routes() {
    let expected = [
        (Futures::Ping, "/fapi/v1/ping"),
        (Futures::Time, "/fapi/v1/time"),
        (Futures::ExchangeInfo, "/fapi/v1/exchangeInfo"),
        (Futures::Depth, "/fapi/v1/depth"),
        (Futures::Trades, "/fapi/v1/trades"),
        (Futures::HistoricalTrades, "/fapi/v1/historicalTrades"),
        (Futures::AggTrades, "/fapi/v1/aggTrades"),
        (Futures::Klines, "/fapi/v1/klines"),
        (Futures::ContinuousKlines, "/fapi/v1/continuousKlines"),
        (Futures::IndexPriceKlines, "/fapi/v1/indexPriceKlines"),
        (Futures::MarkPriceKlines, "/fapi/v1/markPriceKlines"),
        (Futures::PremiumIndex, "/fapi/v1/premiumIndex"),
        (Futures::FundingRate, "/fapi/v1/fundingRate"),
        (Futures::Ticker24hr, "/fapi/v1/ticker/24hr"),
        (Futures::TickerPrice, "/fapi/v1/ticker/price"),
        (Futures::BookTicker, "/fapi/v1/ticker/bookTicker"),
        (Futures::AllForceOrders, "/fapi/v1/allForceOrders"),
        (Futures::AllOpenOrders, "/fapi/v1/allOpenOrders"),
        (Futures::AllOrders, "/fapi/v1/allOrders"),
        (Futures::UserTrades, "/fapi/v1/userTrades"),
        (Futures::Order, "/fapi/v1/order"),
        (Futures::PositionRisk, "/fapi/v2/positionRisk"),
        (Futures::Balance, "/fapi/v2/balance"),
        (Futures::PositionSide, "/fapi/v1/positionSide/dual"),
        (Futures::OpenInterest, "/fapi/v1/openInterest"),
        (Futures::OpenInterestHist, "/futures/data/openInterestHist"),
        (Futures::TopLongShortAccountRatio, "/futures/data/topLongShortAccountRatio"),
        (Futures::TopLongShortPositionRatio, "/futures/data/topLongShortPositionRatio"),
        (Futures::GlobalLongShortAccountRatio, "/futures/data/globalLongShortAccountRatio"),
        (Futures::TakerlongshortRatio, "/futures/data/takerlongshortRatio"),
        (Futures::LvtKlines, "/fapi/v1/lvtKlines"),
        (Futures::IndexInfo, "/fapi/v1/indexInfo"),
        (Futures::ChangeInitialLeverage, "/fapi/v1/leverage"),
        (Futures::Account, "/fapi/v2/account"),
        (Futures::OpenOrders, "/fapi/v1/openOrders"),
        (Futures::UserDataStream, "/fapi/v1/listenKey"),
        (Futures::Income, "/fapi/v1/income"),
        (Futures::HistoricalDataDownloadId, "/sapi/v1/futuresHistDataId"),
        (Futures::HistoricalDataDownloadLink, "/sapi/v1/downloadLink"),
    ];
    for (route, path) in expected {
        assert_eq!(String::from(API::Futures(route)), path);
    }
}

#[test]
fn a_download_link_is_its_own_path() {
    let link = "https://bin.example/data?x=1".to_string();
    assert_eq!(String::from(API::Futures(Futures::DownloadLink(link.clone()))), link);
    assert_eq!(String::from(API::Futures(Futures::DownloadLink(String::new()))), "");
}

#[test]
fn order_of_strings() {
    assert_eq!(compare_str("a", "b"), KeyOrder::Before);
    assert_eq!(compare_str("b", "a"), KeyOrder::After);
    assert_eq!(compare_str("a", "a"), KeyOrder::Same);
    assert_eq!(compare_str("", ""), KeyOrder::Same);
    assert_eq!(compare_str("", "a"), KeyOrder::Before);
    assert_eq!(compare_str("ab", "a"), KeyOrder::After);
    assert_eq!(compare_str("Z", "a"), KeyOrder::Before);
    assert_eq!(compare_str("recvWindow", "symbol"), KeyOrder::Before);
    assert_eq!(compare_str("symbol", "timestamp"), KeyOrder::Before);
    assert_eq!(compare_str("z", "\u{e9}"), KeyOrder::Before);
    assert_eq!(compare_bytes(&[1, 2, 3], &[1, 2, 4]), KeyOrder::Before);
    assert_eq!(compare_bytes(&[255], &[0, 255]), KeyOrder::After);
    for (a, b) in [("abc", "abd"), ("", "x"), ("\u{1f600}", "\u{e9}"), ("same", "same")] {
        let expected = match a.cmp(b) {
            std::cmp::Ordering::Less => KeyOrder::Before,
            std::cmp::Ordering::Equal => KeyOrder::Same,
            std::cmp::Ordering::Greater => KeyOrder::After,
        };
        assert_eq!(compare_str(a, b), expected);
    }
    assert!(str_eq("abc", "abc"));
    assert!(!str_eq("abc", "abC"));
    assert!(!str_eq("abc", "ab"));
}

#[test]
fn numerals() {
    assert_eq!(u64_to_string(0), "0");
    assert_eq!(u64_to_string(9), "9");
    assert_eq!(u64_to_string(10), "10");
    assert_eq!(u64_to_string(1234), "1234");
    assert_eq!(u64_to_string(1_499_827_319_559), "1499827319559");
    assert_eq!(u64_to_string(u64::MAX), "18446744073709551615");
    assert_eq!(u128_to_string(u128::MAX), "340282366920938463463374607431768211455");
    assert_eq!(u128_to_string(1_000_000_000_000_000_000_000), "1000000000000000000000");
}

#[test]
fn prefixes() {
    assert!(starts_with("https://x", "http"));
    assert!(starts_with("http", "http"));
    assert!(!starts_with("htt", "http"));
    assert!(!starts_with("/api/http", "http"));
    assert!(starts_with("anything", ""));
    assert!(!starts_with("Http://x", "http"));
}
