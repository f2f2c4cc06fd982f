//! Data of the spot market.

use vstd::prelude::*;
use vstd::string::*;

use crate::json::member;
use crate::json::member_accepts;
use crate::json::member_holds;
use crate::json::FromJson;
use crate::json::Json;
use crate::json::JsonValue;
pub use crate::model::Asks;
pub use crate::model::Balance;
pub use crate::model::Bids;
pub use crate::model::Filters;
pub use crate::model::KlineSummaries;
pub use crate::model::KlineSummary;
pub use crate::model::OrderBook;
pub use crate::model::OrderCanceled;
pub use crate::model::RateLimit;
pub use crate::model::ServerTime;
pub use crate::model::SymbolInfo;
pub use crate::model::TestResponse;

verus! {

/// The trading rules of one symbol.
#[derive(Clone, Debug, PartialEq, Eq)]
pub struct Symbol {
    pub symbol: String,
    pub status: String,
    pub base_asset: String,
    pub base_asset_precision: u64,
    pub quote_asset: String,
    pub quote_precision: u64,
    pub order_types: Vec<String>,
    pub iceberg_allowed: bool,
    pub is_spot_trading_allowed: bool,
    pub is_margin_trading_allowed: bool,
    pub filters: Vec<Filters>,
}

impl FromJson for Symbol {
    open spec fn accepts(j: JsonValue) -> bool {
        &&& j is Object
        &&& member_accepts::<String>(j, "symbol"@)
        &&& member_accepts::<String>(j, "status"@)
        &&& member_accepts::<String>(j, "baseAsset"@)
        &&& member_accepts::<u64>(j, "baseAssetPrecision"@)
        &&& member_accepts::<String>(j, "quoteAsset"@)
        &&& member_accepts::<u64>(j, "quotePrecision"@)
        &&& member_accepts::<Vec<String>>(j, "orderTypes"@)
        &&& member_accepts::<bool>(j, "icebergAllowed"@)
        &&& member_accepts::<bool>(j, "isSpotTradingAllowed"@)
        &&& member_accepts::<bool>(j, "isMarginTradingAllowed"@)
        &&& member_accepts::<Vec<Filters>>(j, "filters"@)
    }

    open spec fn holds(&self, j: JsonValue) -> bool {
        &&& member_holds(self.symbol, j, "symbol"@)
        &&& member_holds(self.status, j, "status"@)
        &&& member_holds(self.base_asset, j, "baseAsset"@)
        &&& member_holds(self.base_asset_precision, j, "baseAssetPrecision"@)
        &&& member_holds(self.quote_asset, j, "quoteAsset"@)
        &&& member_holds(self.quote_precision, j, "quotePrecision"@)
        &&& member_holds(self.order_types, j, "orderTypes"@)
        &&& member_holds(self.iceberg_allowed, j, "icebergAllowed"@)
        &&& member_holds(self.is_spot_trading_allowed, j, "isSpotTradingAllowed"@)
        &&& member_holds(self.is_margin_trading_allowed, j, "isMarginTradingAllowed"@)
        &&& member_holds(self.filters, j, "filters"@)
    }

    fn from_json(j: &Json) -> (r: Option<Symbol>) {
        if !j.is_object() {
            return None;
        }
        let symbol = member::<String>(j, "symbol")?;
        let status = member::<String>(j, "status")?;
        let base_asset = member::<String>(j, "baseAsset")?;
        let base_asset_precision = member::<u64>(j, "baseAssetPrecision")?;
        let quote_asset = member::<String>(j, "quoteAsset")?;
        let quote_precision = member::<u64>(j, "quotePrecision")?;
        let order_types = member::<Vec<String>>(j, "orderTypes")?;
        let iceberg_allowed = member::<bool>(j, "icebergAllowed")?;
        let is_spot_trading_allowed = member::<bool>(j, "isSpotTradingAllowed")?;
        let is_margin_trading_allowed = member::<bool>(j, "isMarginTradingAllowed")?;
        let filters = member::<Vec<Filters>>(j, "filters")?;
        Some(
            Symbol {
                symbol,
                status,
                base_asset,
                base_asset_precision,
                quote_asset,
                quote_precision,
                order_types,
                iceberg_allowed,
                is_spot_trading_allowed,
                is_margin_trading_allowed,
                filters,
            },
        )
    }
}

/// The exchange's trading rules at one moment.
#[derive(Clone, Debug, PartialEq, Eq)]
pub struct ExchangeInformation {
    pub timezone: String,
    pub server_time: u64,
    pub rate_limits: Vec<RateLimit>,
    pub symbols: Vec<Symbol>,
}

impl FromJson for ExchangeInformation {
    open spec fn accepts(j: JsonValue) -> bool {
        &&& j is Object
        &&& member_accepts::<String>(j, "timezone"@)
        &&& member_accepts::<u64>(j, "serverTime"@)
        &&& member_accepts::<Vec<RateLimit>>(j, "rateLimits"@)
        &&& member_accepts::<Vec<Symbol>>(j, "symbols"@)
    }

    open spec fn holds(&self, j: JsonValue) -> bool {
        &&& member_holds(self.timezone, j, "timezone"@)
        &&& member_holds(self.server_time, j, "serverTime"@)
        &&& member_holds(self.rate_limits, j, "rateLimits"@)
        &&& member_holds(self.symbols, j, "symbols"@)
    }

    fn from_json(j: &Json) -> (r: Option<ExchangeInformation>) {
        if !j.is_object() {
            return None;
        }
        let timezone = member::<String>(j, "timezone")?;
        let server_time = member::<u64>(j, "serverTime")?;
        let rate_limits = member::<Vec<RateLimit>>(j, "rateLimits")?;
        let symbols = member::<Vec<Symbol>>(j, "symbols")?;
        Some(
            ExchangeInformation {
                timezone,
                server_time,
                rate_limits,
                symbols,
            },
        )
    }
}

/// The listen key of a user stream that was started.
#[derive(Clone, Debug, PartialEq, Eq)]
pub struct UserDataStream {
    pub listen_key: String,
}

impl FromJson for UserDataStream {
    open spec fn accepts(j: JsonValue) -> bool {
        &&& j is Object
        &&& member_accepts::<String>(j, "listenKey"@)
    }

    open spec fn holds(&self, j: JsonValue) -> bool {
        &&& member_holds(self.listen_key, j, "listenKey"@)
    }

    fn from_json(j: &Json) -> (r: Option<UserDataStream>) {
        if !j.is_object() {
            return None;
        }
        let listen_key = member::<String>(j, "listenKey")?;
        Some(
            UserDataStream {
                listen_key,
            },
        )
    }
}

/// A reply without content to a request that succeeded.
#[derive(Clone, Debug, PartialEq, Eq)]
pub struct Success {}

impl FromJson for Success {
    open spec fn accepts(j: JsonValue) -> bool {
        &&& j is Object
    }

    open spec fn holds(&self, j: JsonValue) -> bool {
        true
    }

    fn from_json(j: &Json) -> (r: Option<Success>) {
        if !j.is_object() {
            return None;
        }
        Some(Success {})
    }
}

/// An order of the account was created, changed or filled.
#[derive(Clone, Debug, PartialEq, Eq)]
pub struct OrderTradeEvent {
    pub event_type: String,
    pub event_time: u64,
    pub symbol: String,
    pub new_client_order_id: String,
    pub side: String,
    pub order_type: String,
    pub time_in_force: String,
    pub qty: String,
    pub price: String,
    /// Never read from a document.
    pub p_ignore: String,
    /// Never read from a document.
    pub f_ignore: String,
    /// Never read from a document.
    pub g: i32,
    /// Never read from a document.
    pub c_ignore: Option<String>,
    pub execution_type: String,
    pub order_status: String,
    pub order_reject_reason: String,
    pub order_id: u64,
    pub qty_last_filled_trade: String,
    pub accumulated_qty_filled_trades: String,
    pub price_last_filled_trade: String,
    pub commission: String,
    /// Never read from a document.
    pub asset_commisioned: Option<String>,
    pub trade_order_time: u64,
    pub trade_id: i64,
    /// Never read from a document.
    pub i_ignore: u64,
    /// Never read from a document.
    pub w: bool,
    pub is_buyer_maker: bool,
    /// Never read from a document.
    pub m_ignore: bool,
}

impl FromJson for OrderTradeEvent {
    open spec fn accepts(j: JsonValue) -> bool {
        &&& j is Object
        &&& member_accepts::<String>(j, "e"@)
        &&& member_accepts::<u64>(j, "E"@)
        &&& member_accepts::<String>(j, "s"@)
        &&& member_accepts::<String>(j, "c"@)
        &&& member_accepts::<String>(j, "S"@)
        &&& member_accepts::<String>(j, "o"@)
        &&& member_accepts::<String>(j, "f"@)
        &&& member_accepts::<String>(j, "q"@)
        &&& member_accepts::<String>(j, "p"@)
        &&& member_accepts::<String>(j, "x"@)
        &&& member_accepts::<String>(j, "X"@)
        &&& member_accepts::<String>(j, "r"@)
        &&& member_accepts::<u64>(j, "i"@)
        &&& member_accepts::<String>(j, "l"@)
        &&& member_accepts::<String>(j, "z"@)
        &&& member_accepts::<String>(j, "L"@)
        &&& member_accepts::<String>(j, "n"@)
        &&& member_accepts::<u64>(j, "T"@)
        &&& member_accepts::<i64>(j, "t"@)
        &&& member_accepts::<bool>(j, "m"@)
    }

    open spec fn holds(&self, j: JsonValue) -> bool {
        &&& member_holds(self.event_type, j, "e"@)
        &&& member_holds(self.event_time, j, "E"@)
        &&& member_holds(self.symbol, j, "s"@)
        &&& member_holds(self.new_client_order_id, j, "c"@)
        &&& member_holds(self.side, j, "S"@)
        &&& member_holds(self.order_type, j, "o"@)
        &&& member_holds(self.time_in_force, j, "f"@)
        &&& member_holds(self.qty, j, "q"@)
        &&& member_holds(self.price, j, "p"@)
        &&& self.p_ignore@ == Seq::<char>::empty()
        &&& self.f_ignore@ == Seq::<char>::empty()
        &&& self.g == 0
        &&& self.c_ignore is None
        &&& member_holds(self.execution_type, j, "x"@)
        &&& member_holds(self.order_status, j, "X"@)
        &&& member_holds(self.order_reject_reason, j, "r"@)
        &&& member_holds(self.order_id, j, "i"@)
        &&& member_holds(self.qty_last_filled_trade, j, "l"@)
        &&& member_holds(self.accumulated_qty_filled_trades, j, "z"@)
        &&& member_holds(self.price_last_filled_trade, j, "L"@)
        &&& member_holds(self.commission, j, "n"@)
        &&& self.asset_commisioned is None
        &&& member_holds(self.trade_order_time, j, "T"@)
        &&& member_holds(self.trade_id, j, "t"@)
        &&& self.i_ignore == 0
        &&& !self.w
        &&& member_holds(self.is_buyer_maker, j, "m"@)
        &&& !self.m_ignore
    }

    fn from_json(j: &Json) -> (r: Option<OrderTradeEvent>) {
        if !j.is_object() {
            return None;
        }
        let event_type = member::<String>(j, "e")?;
        let event_time = member::<u64>(j, "E")?;
        let symbol = member::<String>(j, "s")?;
        let new_client_order_id = member::<String>(j, "c")?;
        let side = member::<String>(j, "S")?;
        let order_type = member::<String>(j, "o")?;
        let time_in_force = member::<String>(j, "f")?;
        let qty = member::<String>(j, "q")?;
        let price = member::<String>(j, "p")?;
        let execution_type = member::<String>(j, "x")?;
        let order_status = member::<String>(j, "X")?;
        let order_reject_reason = member::<String>(j, "r")?;
        let order_id = member::<u64>(j, "i")?;
        let qty_last_filled_trade = member::<String>(j, "l")?;
        let accumulated_qty_filled_trades = member::<String>(j, "z")?;
        let price_last_filled_trade = member::<String>(j, "L")?;
        let commission = member::<String>(j, "n")?;
        let trade_order_time = member::<u64>(j, "T")?;
        let trade_id = member::<i64>(j, "t")?;
        let is_buyer_maker = member::<bool>(j, "m")?;
        Some(
            OrderTradeEvent {
                event_type,
                event_time,
                symbol,
                new_client_order_id,
                side,
                order_type,
                time_in_force,
                qty,
                price,
                p_ignore: String::new(),
                f_ignore: String::new(),
                g: 0,
                c_ignore: None,
                execution_type,
                order_status,
                order_reject_reason,
                order_id,
                qty_last_filled_trade,
                accumulated_qty_filled_trades,
                price_last_filled_trade,
                commission,
                asset_commisioned: None,
                trade_order_time,
                trade_id,
                i_ignore: 0,
                w: false,
                is_buyer_maker,
                m_ignore: false,
            },
        )
    }
}

/// The identifier of a download of historical data that was asked for.
#[derive(Clone, Debug, PartialEq, Eq)]
pub struct HistoricalDataDownloadId {
    pub id: u128,
}

impl FromJson for HistoricalDataDownloadId {
    open spec fn accepts(j: JsonValue) -> bool {
        &&& j is Object
        &&& member_accepts::<u128>(j, "id"@)
    }

    open spec fn holds(&self, j: JsonValue) -> bool {
        &&& member_holds(self.id, j, "id"@)
    }

    fn from_json(j: &Json) -> (r: Option<HistoricalDataDownloadId>) {
        if !j.is_object() {
            return None;
        }
        let id = member::<u128>(j, "id")?;
        Some(
            HistoricalDataDownloadId {
                id,
            },
        )
    }
}

/// The link of a download of historical data.
#[derive(Clone, Debug, PartialEq, Eq)]
pub struct HistoricalDataDownloadLink {
    pub link: String,
}

impl FromJson for HistoricalDataDownloadLink {
    open spec fn accepts(j: JsonValue) -> bool {
        &&& j is Object
        &&& member_accepts::<String>(j, "link"@)
    }

    open spec fn holds(&self, j: JsonValue) -> bool {
        &&& member_holds(self.link, j, "link"@)
    }

    fn from_json(j: &Json) -> (r: Option<HistoricalDataDownloadLink>) {
        if !j.is_object() {
            return None;
        }
        let link = member::<String>(j, "link")?;
        Some(
            HistoricalDataDownloadLink {
                link,
            },
        )
    }
}

impl SymbolInfo for Symbol {
    fn ticker(&self) -> (name: &str)
        ensures
            name@ == self.symbol@,
    {
        self.symbol.as_str()
    }

    fn status(&self) -> (status: &str)
        ensures
            status@ == self.status@,
    {
        self.status.as_str()
    }
}

} // verus!
