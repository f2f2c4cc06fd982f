//! Data of the futures markets.

use vstd::prelude::*;
use vstd::string::*;

use crate::json::member;
use crate::json::member_accepts;
use crate::json::member_holds;
use crate::json::optional_accepts;
use crate::json::optional_holds;
use crate::json::optional_member;
use crate::json::FromJson;
use crate::json::Json;
use crate::json::JsonValue;
pub use crate::model::OrderBook;
pub use crate::spot::model::ExchangeInformation;
pub use crate::spot::model::Symbol;

verus! {

/// The order that an order update reports.
#[derive(Clone, Debug, PartialEq, Eq)]
pub struct OrderUpdate {
    pub symbol: String,
    pub new_client_order_id: String,
    pub side: String,
    pub order_type: String,
    pub time_in_force: String,
    pub qty: String,
    pub price: String,
    pub average_price: String,
    pub stop_price: String,
    pub execution_type: String,
    pub order_status: String,
    pub order_id: u64,
    pub qty_last_filled_trade: String,
    pub accumulated_qty_filled_trades: String,
    pub price_last_filled_trade: String,
    pub asset_commisioned: Option<String>,
    pub commission: Option<String>,
    pub trade_order_time: u64,
    pub trade_id: i64,
    pub bids_notional: String,
    pub ask_notional: String,
    pub is_buyer_maker: bool,
    pub is_reduce_only: bool,
    pub stop_price_working_type: String,
    pub original_order_type: String,
    pub position_side: String,
    pub close_all: Option<bool>,
    pub activation_price: Option<String>,
    pub callback_rate: Option<String>,
    pub realized_profit: String,
}

impl FromJson for OrderUpdate {
    open spec fn accepts(j: JsonValue) -> bool {
        &&& j is Object
        &&& member_accepts::<String>(j, "s"@)
        &&& member_accepts::<String>(j, "c"@)
        &&& member_accepts::<String>(j, "S"@)
        &&& member_accepts::<String>(j, "o"@)
        &&& member_accepts::<String>(j, "f"@)
        &&& member_accepts::<String>(j, "q"@)
        &&& member_accepts::<String>(j, "p"@)
        &&& member_accepts::<String>(j, "ap"@)
        &&& member_accepts::<String>(j, "sp"@)
        &&& member_accepts::<String>(j, "x"@)
        &&& member_accepts::<String>(j, "X"@)
        &&& member_accepts::<u64>(j, "i"@)
        &&& member_accepts::<String>(j, "l"@)
        &&& member_accepts::<String>(j, "z"@)
        &&& member_accepts::<String>(j, "L"@)
        &&& optional_accepts::<String>(j, "N"@)
        &&& optional_accepts::<String>(j, "n"@)
        &&& member_accepts::<u64>(j, "T"@)
        &&& member_accepts::<i64>(j, "t"@)
        &&& member_accepts::<String>(j, "b"@)
        &&& member_accepts::<String>(j, "a"@)
        &&& member_accepts::<bool>(j, "m"@)
        &&& member_accepts::<bool>(j, "R"@)
        &&& member_accepts::<String>(j, "wt"@)
        &&& member_accepts::<String>(j, "ot"@)
        &&& member_accepts::<String>(j, "ps"@)
        &&& optional_accepts::<bool>(j, "cp"@)
        &&& optional_accepts::<String>(j, "AP"@)
        &&& optional_accepts::<String>(j, "cr"@)
        &&& member_accepts::<String>(j, "rp"@)
    }

    open spec fn holds(&self, j: JsonValue) -> bool {
        &&& member_holds(self.symbol, j, "s"@)
        &&& member_holds(self.new_client_order_id, j, "c"@)
        &&& member_holds(self.side, j, "S"@)
        &&& member_holds(self.order_type, j, "o"@)
        &&& member_holds(self.time_in_force, j, "f"@)
        &&& member_holds(self.qty, j, "q"@)
        &&& member_holds(self.price, j, "p"@)
        &&& member_holds(self.average_price, j, "ap"@)
        &&& member_holds(self.stop_price, j, "sp"@)
        &&& member_holds(self.execution_type, j, "x"@)
        &&& member_holds(self.order_status, j, "X"@)
        &&& member_holds(self.order_id, j, "i"@)
        &&& member_holds(self.qty_last_filled_trade, j, "l"@)
        &&& member_holds(self.accumulated_qty_filled_trades, j, "z"@)
        &&& member_holds(self.price_last_filled_trade, j, "L"@)
        &&& optional_holds(self.asset_commisioned, j, "N"@)
        &&& optional_holds(self.commission, j, "n"@)
        &&& member_holds(self.trade_order_time, j, "T"@)
        &&& member_holds(self.trade_id, j, "t"@)
        &&& member_holds(self.bids_notional, j, "b"@)
        &&& member_holds(self.ask_notional, j, "a"@)
        &&& member_holds(self.is_buyer_maker, j, "m"@)
        &&& member_holds(self.is_reduce_only, j, "R"@)
        &&& member_holds(self.stop_price_working_type, j, "wt"@)
        &&& member_holds(self.original_order_type, j, "ot"@)
        &&& member_holds(self.position_side, j, "ps"@)
        &&& optional_holds(self.close_all, j, "cp"@)
        &&& optional_holds(self.activation_price, j, "AP"@)
        &&& optional_holds(self.callback_rate, j, "cr"@)
        &&& member_holds(self.realized_profit, j, "rp"@)
    }

    fn from_json(j: &Json) -> (r: Option<OrderUpdate>) {
        if !j.is_object() {
            return None;
        }
        let symbol = member::<String>(j, "s")?;
        let new_client_order_id = member::<String>(j, "c")?;
        let side = member::<String>(j, "S")?;
        let order_type = member::<String>(j, "o")?;
        let time_in_force = member::<String>(j, "f")?;
        let qty = member::<String>(j, "q")?;
        let price = member::<String>(j, "p")?;
        let average_price = member::<String>(j, "ap")?;
        let stop_price = member::<String>(j, "sp")?;
        let execution_type = member::<String>(j, "x")?;
        let order_status = member::<String>(j, "X")?;
        let order_id = member::<u64>(j, "i")?;
        let qty_last_filled_trade = member::<String>(j, "l")?;
        let accumulated_qty_filled_trades = member::<String>(j, "z")?;
        let price_last_filled_trade = member::<String>(j, "L")?;
        let asset_commisioned = optional_member::<String>(j, "N")?;
        let commission = optional_member::<String>(j, "n")?;
        let trade_order_time = member::<u64>(j, "T")?;
        let trade_id = member::<i64>(j, "t")?;
        let bids_notional = member::<String>(j, "b")?;
        let ask_notional = member::<String>(j, "a")?;
        let is_buyer_maker = member::<bool>(j, "m")?;
        let is_reduce_only = member::<bool>(j, "R")?;
        let stop_price_working_type = member::<String>(j, "wt")?;
        let original_order_type = member::<String>(j, "ot")?;
        let position_side = member::<String>(j, "ps")?;
        let close_all = optional_member::<bool>(j, "cp")?;
        let activation_price = optional_member::<String>(j, "AP")?;
        let callback_rate = optional_member::<String>(j, "cr")?;
        let realized_profit = member::<String>(j, "rp")?;
        Some(
            OrderUpdate {
                symbol,
                new_client_order_id,
                side,
                order_type,
                time_in_force,
                qty,
                price,
                average_price,
                stop_price,
                execution_type,
                order_status,
                order_id,
                qty_last_filled_trade,
                accumulated_qty_filled_trades,
                price_last_filled_trade,
                asset_commisioned,
                commission,
                trade_order_time,
                trade_id,
                bids_notional,
                ask_notional,
                is_buyer_maker,
                is_reduce_only,
                stop_price_working_type,
                original_order_type,
                position_side,
                close_all,
                activation_price,
                callback_rate,
                realized_profit,
            },
        )
    }
}

/// An order of the account was created, changed or filled.
#[derive(Clone, Debug, PartialEq, Eq)]
pub struct OrderTradeEvent {
    pub event_type: String,
    pub event_time: u64,
    pub transaction_time: u64,
    pub order: OrderUpdate,
}

impl FromJson for OrderTradeEvent {
    open spec fn accepts(j: JsonValue) -> bool {
        &&& j is Object
        &&& member_accepts::<String>(j, "e"@)
        &&& member_accepts::<u64>(j, "E"@)
        &&& member_accepts::<u64>(j, "T"@)
        &&& member_accepts::<OrderUpdate>(j, "o"@)
    }

    open spec fn holds(&self, j: JsonValue) -> bool {
        &&& member_holds(self.event_type, j, "e"@)
        &&& member_holds(self.event_time, j, "E"@)
        &&& member_holds(self.transaction_time, j, "T"@)
        &&& member_holds(self.order, j, "o"@)
    }

    fn from_json(j: &Json) -> (r: Option<OrderTradeEvent>) {
        if !j.is_object() {
            return None;
        }
        let event_type = member::<String>(j, "e")?;
        let event_time = member::<u64>(j, "E")?;
        let transaction_time = member::<u64>(j, "T")?;
        let order = member::<OrderUpdate>(j, "o")?;
        Some(
            OrderTradeEvent {
                event_type,
                event_time,
                transaction_time,
                order,
            },
        )
    }
}

} // verus!
