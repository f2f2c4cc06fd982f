//! The routes of the REST interface and the path of each.

use vstd::prelude::*;
use vstd::string::*;

use crate::account::Account;
use crate::client::Client;
use crate::config::Config;
use crate::futures::general::General as FuturesGeneral;
use crate::futures::market::Market as FuturesMarket;
use crate::futures::user_stream::UserStream as FuturesUserStream;
use crate::general::Cache;
use crate::general::General;
use crate::spot::market::Market;
use crate::spot::user_stream::UserStream;

verus! {

/// A route of the REST interface.
#[allow(clippy::all)]
#[derive(Clone, Debug)]
pub enum API {
    Spot(Spot),
    Savings(Sapi),
    Futures(Futures),
}

/// Routes of the spot market. Orders sent to `OrderTest` are validated but
/// never reach the matching engine.
#[derive(Clone, Debug)]
pub enum Spot {
    Ping,
    Time,
    ExchangeInfo,
    Depth,
    Trades,
    HistoricalTrades,
    AggTrades,
    Klines,
    AvgPrice,
    Ticker24hr,
    Price,
    BookTicker,
    Order,
    OrderTest,
    OpenOrders,
    AllOrders,
    Oco,
    OrderList,
    AllOrderList,
    OpenOrderList,
    Account,
    AccountCommission,
    MyTrades,
    UserDataStream,
}

/// Routes of the savings interface.
#[derive(Clone, Debug)]
pub enum Sapi {
    AllCoins,
    AssetDetail,
    DepositAddress,
    SpotFuturesTransfer,
}

/// Routes of the futures market. `DownloadLink` carries a complete URL, which
/// is used as it stands.
#[derive(Clone, Debug)]
pub enum Futures {
    Ping,
    Time,
    ExchangeInfo,
    Depth,
    Trades,
    HistoricalTrades,
    AggTrades,
    Klines,
    ContinuousKlines,
    IndexPriceKlines,
    MarkPriceKlines,
    PremiumIndex,
    FundingRate,
    Ticker24hr,
    TickerPrice,
    BookTicker,
    AllForceOrders,
    AllOpenOrders,
    AllOrders,
    UserTrades,
    PositionSide,
    Order,
    PositionRisk,
    Balance,
    OpenInterest,
    OpenInterestHist,
    TopLongShortAccountRatio,
    TopLongShortPositionRatio,
    GlobalLongShortAccountRatio,
    TakerlongshortRatio,
    LvtKlines,
    IndexInfo,
    ChangeInitialLeverage,
    Account,
    OpenOrders,
    UserDataStream,
    Income,
    HistoricalDataDownloadId,
    HistoricalDataDownloadLink,
    DownloadLink(String),
}

/// The path of a spot route.
pub open spec fn spot_path(route: Spot) -> Seq<char> {
    match route {
        Spot::Ping => "/api/v3/ping"@,
        Spot::Time => "/api/v3/time"@,
        Spot::ExchangeInfo => "/api/v3/exchangeInfo"@,
        Spot::Depth => "/api/v3/depth"@,
        Spot::Trades => "/api/v3/trades"@,
        Spot::HistoricalTrades => "/api/v3/historicalTrades"@,
        Spot::AggTrades => "/api/v3/aggTrades"@,
        Spot::Klines => "/api/v3/klines"@,
        Spot::AvgPrice => "/api/v3/avgPrice"@,
        Spot::Ticker24hr => "/api/v3/ticker/24hr"@,
        Spot::Price => "/api/v3/ticker/price"@,
        Spot::BookTicker => "/api/v3/ticker/bookTicker"@,
        Spot::Order => "/api/v3/order"@,
        Spot::OrderTest => "/api/v3/order/test"@,
        Spot::OpenOrders => "/api/v3/openOrders"@,
        Spot::AllOrders => "/api/v3/allOrders"@,
        Spot::Oco => "/api/v3/order/oco"@,
        Spot::OrderList => "/api/v3/orderList"@,
        Spot::AllOrderList => "/api/v3/allOrderList"@,
        Spot::OpenOrderList => "/api/v3/openOrderList"@,
        Spot::Account => "/api/v3/account"@,
        Spot::AccountCommission => "/api/v3/account/commission"@,
        Spot::MyTrades => "/api/v3/myTrades"@,
        Spot::UserDataStream => "/api/v3/userDataStream"@,
    }
}

/// The path of a savings route.
pub open spec fn sapi_path(route: Sapi) -> Seq<char> {
    match route {
        Sapi::AllCoins => "/sapi/v1/capital/config/getall"@,
        Sapi::AssetDetail => "/sapi/v1/asset/assetDetail"@,
        Sapi::DepositAddress => "/sapi/v1/capital/deposit/address"@,
        Sapi::SpotFuturesTransfer => "/sapi/v1/futures/transfer"@,
    }
}

/// The path of a futures route; for `DownloadLink`, the URL it carries.
pub open spec fn futures_path(route: Futures) -> Seq<char> {
    match route {
        Futures::Ping => "/fapi/v1/ping"@,
        Futures::Time => "/fapi/v1/time"@,
        Futures::ExchangeInfo => "/fapi/v1/exchangeInfo"@,
        Futures::Depth => "/fapi/v1/depth"@,
        Futures::Trades => "/fapi/v1/trades"@,
        Futures::HistoricalTrades => "/fapi/v1/historicalTrades"@,
        Futures::AggTrades => "/fapi/v1/aggTrades"@,
        Futures::Klines => "/fapi/v1/klines"@,
        Futures::ContinuousKlines => "/fapi/v1/continuousKlines"@,
        Futures::IndexPriceKlines => "/fapi/v1/indexPriceKlines"@,
        Futures::MarkPriceKlines => "/fapi/v1/markPriceKlines"@,
        Futures::PremiumIndex => "/fapi/v1/premiumIndex"@,
        Futures::FundingRate => "/fapi/v1/fundingRate"@,
        Futures::Ticker24hr => "/fapi/v1/ticker/24hr"@,
        Futures::TickerPrice => "/fapi/v1/ticker/price"@,
        Futures::BookTicker => "/fapi/v1/ticker/bookTicker"@,
        Futures::AllForceOrders => "/fapi/v1/allForceOrders"@,
        Futures::AllOpenOrders => "/fapi/v1/allOpenOrders"@,
        Futures::AllOrders => "/fapi/v1/allOrders"@,
        Futures::UserTrades => "/fapi/v1/userTrades"@,
        Futures::PositionSide => "/fapi/v1/positionSide/dual"@,
        Futures::Order => "/fapi/v1/order"@,
        Futures::PositionRisk => "/fapi/v2/positionRisk"@,
        Futures::Balance => "/fapi/v2/balance"@,
        Futures::OpenInterest => "/fapi/v1/openInterest"@,
        Futures::OpenInterestHist => "/futures/data/openInterestHist"@,
        Futures::TopLongShortAccountRatio => "/futures/data/topLongShortAccountRatio"@,
        Futures::TopLongShortPositionRatio => "/futures/data/topLongShortPositionRatio"@,
        Futures::GlobalLongShortAccountRatio => "/futures/data/globalLongShortAccountRatio"@,
        Futures::TakerlongshortRatio => "/futures/data/takerlongshortRatio"@,
        Futures::LvtKlines => "/fapi/v1/lvtKlines"@,
        Futures::IndexInfo => "/fapi/v1/indexInfo"@,
        Futures::ChangeInitialLeverage => "/fapi/v1/leverage"@,
        Futures::Account => "/fapi/v2/account"@,
        Futures::OpenOrders => "/fapi/v1/openOrders"@,
        Futures::UserDataStream => "/fapi/v1/listenKey"@,
        Futures::Income => "/fapi/v1/income"@,
        Futures::HistoricalDataDownloadId => "/sapi/v1/futuresHistDataId"@,
        Futures::HistoricalDataDownloadLink => "/sapi/v1/downloadLink"@,
        Futures::DownloadLink(url) => url@,
    }
}

/// The path of a route: every route has exactly one.
pub open spec fn endpoint_path(item: API) -> Seq<char> {
    match item {
        API::Spot(route) => spot_path(route),
        API::Savings(route) => sapi_path(route),
        API::Futures(route) => futures_path(route),
    }
}

/// Whether a route carries a complete URL of its own.
pub open spec fn is_override(item: API) -> bool {
    item matches API::Futures(Futures::DownloadLink(_))
}

fn spot_route(route: Spot) -> (path: String)
    ensures
        path@ == spot_path(route),
{
    match route {
        Spot::Ping => String::from_str("/api/v3/ping"),
        Spot::Time => String::from_str("/api/v3/time"),
        Spot::ExchangeInfo => String::from_str("/api/v3/exchangeInfo"),
        Spot::Depth => String::from_str("/api/v3/depth"),
        Spot::Trades => String::from_str("/api/v3/trades"),
        Spot::HistoricalTrades => String::from_str("/api/v3/historicalTrades"),
        Spot::AggTrades => String::from_str("/api/v3/aggTrades"),
        Spot::Klines => String::from_str("/api/v3/klines"),
        Spot::AvgPrice => String::from_str("/api/v3/avgPrice"),
        Spot::Ticker24hr => String::from_str("/api/v3/ticker/24hr"),
        Spot::Price => String::from_str("/api/v3/ticker/price"),
        Spot::BookTicker => String::from_str("/api/v3/ticker/bookTicker"),
        Spot::Order => String::from_str("/api/v3/order"),
        Spot::OrderTest => String::from_str("/api/v3/order/test"),
        Spot::OpenOrders => String::from_str("/api/v3/openOrders"),
        Spot::AllOrders => String::from_str("/api/v3/allOrders"),
        Spot::Oco => String::from_str("/api/v3/order/oco"),
        Spot::OrderList => String::from_str("/api/v3/orderList"),
        Spot::AllOrderList => String::from_str("/api/v3/allOrderList"),
        Spot::OpenOrderList => String::from_str("/api/v3/openOrderList"),
        Spot::Account => String::from_str("/api/v3/account"),
        Spot::AccountCommission => String::from_str("/api/v3/account/commission"),
        Spot::MyTrades => String::from_str("/api/v3/myTrades"),
        Spot::UserDataStream => String::from_str("/api/v3/userDataStream"),
    }
}

fn sapi_route(route: Sapi) -> (path: String)
    ensures
        path@ == sapi_path(route),
{
    match route {
        Sapi::AllCoins => String::from_str("/sapi/v1/capital/config/getall"),
        Sapi::AssetDetail => String::from_str("/sapi/v1/asset/assetDetail"),
        Sapi::DepositAddress => String::from_str("/sapi/v1/capital/deposit/address"),
        Sapi::SpotFuturesTransfer => String::from_str("/sapi/v1/futures/transfer"),
    }
}

fn futures_route(route: Futures) -> (path: String)
    ensures
        path@ == futures_path(route),
{
    match route {
        Futures::Ping => String::from_str("/fapi/v1/ping"),
        Futures::Time => String::from_str("/fapi/v1/time"),
        Futures::ExchangeInfo => String::from_str("/fapi/v1/exchangeInfo"),
        Futures::Depth => String::from_str("/fapi/v1/depth"),
        Futures::Trades => String::from_str("/fapi/v1/trades"),
        Futures::HistoricalTrades => String::from_str("/fapi/v1/historicalTrades"),
        Futures::AggTrades => String::from_str("/fapi/v1/aggTrades"),
        Futures::Klines => String::from_str("/fapi/v1/klines"),
        Futures::ContinuousKlines => String::from_str("/fapi/v1/continuousKlines"),
        Futures::IndexPriceKlines => String::from_str("/fapi/v1/indexPriceKlines"),
        Futures::MarkPriceKlines => String::from_str("/fapi/v1/markPriceKlines"),
        Futures::PremiumIndex => String::from_str("/fapi/v1/premiumIndex"),
        Futures::FundingRate => String::from_str("/fapi/v1/fundingRate"),
        Futures::Ticker24hr => String::from_str("/fapi/v1/ticker/24hr"),
        Futures::TickerPrice => String::from_str("/fapi/v1/ticker/price"),
        Futures::BookTicker => String::from_str("/fapi/v1/ticker/bookTicker"),
        Futures::AllForceOrders => String::from_str("/fapi/v1/allForceOrders"),
        Futures::AllOpenOrders => String::from_str("/fapi/v1/allOpenOrders"),
        Futures::AllOrders => String::from_str("/fapi/v1/allOrders"),
        Futures::UserTrades => String::from_str("/fapi/v1/userTrades"),
        Futures::PositionSide => String::from_str("/fapi/v1/positionSide/dual"),
        Futures::Order => String::from_str("/fapi/v1/order"),
        Futures::PositionRisk => String::from_str("/fapi/v2/positionRisk"),
        Futures::Balance => String::from_str("/fapi/v2/balance"),
        Futures::OpenInterest => String::from_str("/fapi/v1/openInterest"),
        Futures::OpenInterestHist => String::from_str("/futures/data/openInterestHist"),
        Futures::TopLongShortAccountRatio => String::from_str("/futures/data/topLongShortAccountRatio"),
        Futures::TopLongShortPositionRatio => String::from_str("/futures/data/topLongShortPositionRatio"),
        Futures::GlobalLongShortAccountRatio => String::from_str("/futures/data/globalLongShortAccountRatio"),
        Futures::TakerlongshortRatio => String::from_str("/futures/data/takerlongshortRatio"),
        Futures::LvtKlines => String::from_str("/fapi/v1/lvtKlines"),
        Futures::IndexInfo => String::from_str("/fapi/v1/indexInfo"),
        Futures::ChangeInitialLeverage => String::from_str("/fapi/v1/leverage"),
        Futures::Account => String::from_str("/fapi/v2/account"),
        Futures::OpenOrders => String::from_str("/fapi/v1/openOrders"),
        Futures::UserDataStream => String::from_str("/fapi/v1/listenKey"),
        Futures::Income => String::from_str("/fapi/v1/income"),
        Futures::HistoricalDataDownloadId => String::from_str("/sapi/v1/futuresHistDataId"),
        Futures::HistoricalDataDownloadLink => String::from_str("/sapi/v1/downloadLink"),
        Futures::DownloadLink(url) => url,
    }
}

impl vstd::std_specs::convert::FromSpecImpl<API> for String {
    /// A `String` is known by its characters only, which `from` states itself.
    open spec fn obeys_from_spec() -> bool {
        false
    }

    open spec fn from_spec(item: API) -> String {
        arbitrary()
    }
}

impl From<API> for String {
    /// The path of `item`.
    fn from(item: API) -> (path: String)
        ensures
            path@ == endpoint_path(item),
    {
        match item {
            API::Spot(route) => spot_route(route),
            API::Savings(route) => sapi_route(route),
            API::Futures(route) => futures_route(route),
        }
    }
}

proof fn lemma_spot_rooted(route: Spot)
    ensures
        spot_path(route).len() > 0,
        spot_path(route)[0] == '/',
{
    reveal_strlit("/api/v3/ping");
    reveal_strlit("/api/v3/time");
    reveal_strlit("/api/v3/exchangeInfo");
    reveal_strlit("/api/v3/depth");
    reveal_strlit("/api/v3/trades");
    reveal_strlit("/api/v3/historicalTrades");
    reveal_strlit("/api/v3/aggTrades");
    reveal_strlit("/api/v3/klines");
    reveal_strlit("/api/v3/avgPrice");
    reveal_strlit("/api/v3/ticker/24hr");
    reveal_strlit("/api/v3/ticker/price");
    reveal_strlit("/api/v3/ticker/bookTicker");
    reveal_strlit("/api/v3/order");
    reveal_strlit("/api/v3/order/test");
    reveal_strlit("/api/v3/openOrders");
    reveal_strlit("/api/v3/allOrders");
    reveal_strlit("/api/v3/order/oco");
    reveal_strlit("/api/v3/orderList");
    reveal_strlit("/api/v3/allOrderList");
    reveal_strlit("/api/v3/openOrderList");
    reveal_strlit("/api/v3/account");
    reveal_strlit("/api/v3/account/commission");
    reveal_strlit("/api/v3/myTrades");
    reveal_strlit("/api/v3/userDataStream");
}

proof fn lemma_sapi_rooted(route: Sapi)
    ensures
        sapi_path(route).len() > 0,
        sapi_path(route)[0] == '/',
{
    reveal_strlit("/sapi/v1/capital/config/getall");
    reveal_strlit("/sapi/v1/asset/assetDetail");
    reveal_strlit("/sapi/v1/capital/deposit/address");
    reveal_strlit("/sapi/v1/futures/transfer");
}

proof fn lemma_futures_rooted(route: Futures)
    requires
        !(route is DownloadLink),
    ensures
        futures_path(route).len() > 0,
        futures_path(route)[0] == '/',
{
    reveal_strlit("/fapi/v1/ping");
    reveal_strlit("/fapi/v1/time");
    reveal_strlit("/fapi/v1/exchangeInfo");
    reveal_strlit("/fapi/v1/depth");
    reveal_strlit("/fapi/v1/trades");
    reveal_strlit("/fapi/v1/historicalTrades");
    reveal_strlit("/fapi/v1/aggTrades");
    reveal_strlit("/fapi/v1/klines");
    reveal_strlit("/fapi/v1/continuousKlines");
    reveal_strlit("/fapi/v1/indexPriceKlines");
    reveal_strlit("/fapi/v1/markPriceKlines");
    reveal_strlit("/fapi/v1/premiumIndex");
    reveal_strlit("/fapi/v1/fundingRate");
    reveal_strlit("/fapi/v1/ticker/24hr");
    reveal_strlit("/fapi/v1/ticker/price");
    reveal_strlit("/fapi/v1/ticker/bookTicker");
    reveal_strlit("/fapi/v1/allForceOrders");
    reveal_strlit("/fapi/v1/allOpenOrders");
    reveal_strlit("/fapi/v1/allOrders");
    reveal_strlit("/fapi/v1/userTrades");
    reveal_strlit("/fapi/v1/positionSide/dual");
    reveal_strlit("/fapi/v1/order");
    reveal_strlit("/fapi/v2/positionRisk");
    reveal_strlit("/fapi/v2/balance");
    reveal_strlit("/fapi/v1/openInterest");
    reveal_strlit("/futures/data/openInterestHist");
    reveal_strlit("/futures/data/topLongShortAccountRatio");
    reveal_strlit("/futures/data/topLongShortPositionRatio");
    reveal_strlit("/futures/data/globalLongShortAccountRatio");
    reveal_strlit("/futures/data/takerlongshortRatio");
    reveal_strlit("/fapi/v1/lvtKlines");
    reveal_strlit("/fapi/v1/indexInfo");
    reveal_strlit("/fapi/v1/leverage");
    reveal_strlit("/fapi/v2/account");
    reveal_strlit("/fapi/v1/openOrders");
    reveal_strlit("/fapi/v1/listenKey");
    reveal_strlit("/fapi/v1/income");
    reveal_strlit("/sapi/v1/futuresHistDataId");
    reveal_strlit("/sapi/v1/downloadLink");
}

/// The path of every route that carries no URL of its own begins with `/`,
/// so that it can follow a host name directly.
pub proof fn lemma_path_rooted(item: API)
    requires
        !is_override(item),
    ensures
        endpoint_path(item).len() > 0,
        endpoint_path(item)[0] == '/',
{
    match item {
        API::Spot(route) => lemma_spot_rooted(route),
        API::Savings(route) => lemma_sapi_rooted(route),
        API::Futures(route) => lemma_futures_rooted(route),
    }
}

/// A group of endpoints that is reached with the keys of one account.
pub trait Binance: Sized {
    /// The endpoints at the production hosts.
    fn new(api_key: Option<String>, secret_key: Option<String>) -> Self;

    /// The endpoints at the hosts of `config`.
    fn new_with_config(api_key: Option<String>, secret_key: Option<String>, config: &Config)
        -> Self;
}

impl Binance for General {
    fn new(api_key: Option<String>, secret_key: Option<String>) -> (r: General)
        ensures
            r.client.host() == "https://api.binance.com"@,
            r.client.api_key() == crate::client::key_text(api_key),
            r.client.secret_key() == crate::client::key_text(secret_key),
            r.cache.snapshot() is None,
            r.cache.fetched_at() is None,
    {
        Self::new_with_config(api_key, secret_key, &Config::default())
    }

    fn new_with_config(api_key: Option<String>, secret_key: Option<String>, config: &Config) -> (r:
        General)
        ensures
            r.client.host() == config.rest_api_endpoint@,
            r.client.api_key() == crate::client::key_text(api_key),
            r.client.secret_key() == crate::client::key_text(secret_key),
            r.cache.snapshot() is None,
            r.cache.fetched_at() is None,
    {
        General {
            client: Client::new(api_key, secret_key, config.rest_api_endpoint.clone()),
            cache: Cache::new(),
        }
    }
}

impl Binance for Account {
    fn new(api_key: Option<String>, secret_key: Option<String>) -> (r: Account)
        ensures
            r.client.host() == "https://api.binance.com"@,
            r.client.api_key() == crate::client::key_text(api_key),
            r.client.secret_key() == crate::client::key_text(secret_key),
            r.recv_window == 5000,
    {
        Self::new_with_config(api_key, secret_key, &Config::default())
    }

    fn new_with_config(api_key: Option<String>, secret_key: Option<String>, config: &Config) -> (r:
        Account)
        ensures
            r.client.host() == config.rest_api_endpoint@,
            r.client.api_key() == crate::client::key_text(api_key),
            r.client.secret_key() == crate::client::key_text(secret_key),
            r.recv_window == config.recv_window,
    {
        Account {
            client: Client::new(api_key, secret_key, config.rest_api_endpoint.clone()),
            recv_window: config.recv_window,
        }
    }
}

impl Binance for Market {
    fn new(api_key: Option<String>, secret_key: Option<String>) -> (r: Market)
        ensures
            r.client.host() == "https://api.binance.com"@,
            r.client.api_key() == crate::client::key_text(api_key),
            r.client.secret_key() == crate::client::key_text(secret_key),
            r.recv_window == 5000,
    {
        Self::new_with_config(api_key, secret_key, &Config::default())
    }

    fn new_with_config(api_key: Option<String>, secret_key: Option<String>, config: &Config) -> (r:
        Market)
        ensures
            r.client.host() == config.rest_api_endpoint@,
            r.client.api_key() == crate::client::key_text(api_key),
            r.client.secret_key() == crate::client::key_text(secret_key),
            r.recv_window == config.recv_window,
    {
        Market {
            client: Client::new(api_key, secret_key, config.rest_api_endpoint.clone()),
            recv_window: config.recv_window,
        }
    }
}

impl Binance for UserStream {
    fn new(api_key: Option<String>, secret_key: Option<String>) -> (r: UserStream)
        ensures
            r.client.host() == "https://api.binance.com"@,
            r.client.api_key() == crate::client::key_text(api_key),
            r.client.secret_key() == crate::client::key_text(secret_key),
            r.recv_window == 5000,
    {
        Self::new_with_config(api_key, secret_key, &Config::default())
    }

    fn new_with_config(api_key: Option<String>, secret_key: Option<String>, config: &Config) -> (r:
        UserStream)
        ensures
            r.client.host() == config.rest_api_endpoint@,
            r.client.api_key() == crate::client::key_text(api_key),
            r.client.secret_key() == crate::client::key_text(secret_key),
            r.recv_window == config.recv_window,
    {
        UserStream {
            client: Client::new(api_key, secret_key, config.rest_api_endpoint.clone()),
            recv_window: config.recv_window,
        }
    }
}

impl Binance for FuturesGeneral {
    fn new(api_key: Option<String>, secret_key: Option<String>) -> (r: FuturesGeneral)
        ensures
            r.client.host() == "https://fapi.binance.com"@,
            r.client.api_key() == crate::client::key_text(api_key),
            r.client.secret_key() == crate::client::key_text(secret_key),
            r.cache.snapshot() is None,
            r.cache.fetched_at() is None,
    {
        Self::new_with_config(api_key, secret_key, &Config::default())
    }

    fn new_with_config(api_key: Option<String>, secret_key: Option<String>, config: &Config) -> (r:
        FuturesGeneral)
        ensures
            r.client.host() == config.futures_rest_api_endpoint@,
            r.client.api_key() == crate::client::key_text(api_key),
            r.client.secret_key() == crate::client::key_text(secret_key),
            r.cache.snapshot() is None,
            r.cache.fetched_at() is None,
    {
        FuturesGeneral {
            client: Client::new(api_key, secret_key, config.futures_rest_api_endpoint.clone()),
            cache: Cache::new(),
        }
    }
}

impl Binance for FuturesMarket {
    fn new(api_key: Option<String>, secret_key: Option<String>) -> (r: FuturesMarket)
        ensures
            r.client.host() == "https://fapi.binance.com"@,
            r.client.api_key() == crate::client::key_text(api_key),
            r.client.secret_key() == crate::client::key_text(secret_key),
            r.recv_window == 5000,
    {
        Self::new_with_config(api_key, secret_key, &Config::default())
    }

    fn new_with_config(api_key: Option<String>, secret_key: Option<String>, config: &Config) -> (r:
        FuturesMarket)
        ensures
            r.client.host() == config.futures_rest_api_endpoint@,
            r.client.api_key() == crate::client::key_text(api_key),
            r.client.secret_key() == crate::client::key_text(secret_key),
            r.recv_window == config.recv_window,
    {
        FuturesMarket {
            client: Client::new(api_key, secret_key, config.futures_rest_api_endpoint.clone()),
            recv_window: config.recv_window,
        }
    }
}

impl Binance for FuturesUserStream {
    fn new(api_key: Option<String>, secret_key: Option<String>) -> (r: FuturesUserStream)
        ensures
            r.client.host() == "https://fapi.binance.com"@,
            r.client.api_key() == crate::client::key_text(api_key),
            r.client.secret_key() == crate::client::key_text(secret_key),
            r.recv_window == 5000,
    {
        Self::new_with_config(api_key, secret_key, &Config::default())
    }

    fn new_with_config(api_key: Option<String>, secret_key: Option<String>, config: &Config) -> (r:
        FuturesUserStream)
        ensures
            r.client.host() == config.futures_rest_api_endpoint@,
            r.client.api_key() == crate::client::key_text(api_key),
            r.client.secret_key() == crate::client::key_text(secret_key),
            r.recv_window == config.recv_window,
    {
        FuturesUserStream {
            client: Client::new(api_key, secret_key, config.futures_rest_api_endpoint.clone()),
            recv_window: config.recv_window,
        }
    }
}

} // verus!
