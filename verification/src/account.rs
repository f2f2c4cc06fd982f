//! The endpoints of an account: its balances, its orders and its trades.
//!
//! Amounts and prices are decimal texts. Every request here is signed and
//! stamped with the time of the system's clock.

use vstd::prelude::*;
use vstd::string::*;

use crate::api::API;
use crate::api::Futures;
use crate::api::Spot;
use crate::client::is_timed_plan;
use crate::client::optional_text;
use crate::client::Client;
use crate::client::Method;
use crate::client::Request;
use crate::errors::Error;
use crate::model::Balance;
use crate::text::decimal;
use crate::text::str_eq;
use crate::text::u128_to_string;
use crate::util::with_entry;
use crate::util::with_optional_text;
use crate::util::Entries;
use crate::util::Params;

verus! {

/// The endpoints of an account.
#[derive(Clone, Debug)]
pub struct Account {
    pub client: Client,
    pub recv_window: u64,
}

/// An order by quantity. A price of `None` stands for the price zero, which
/// is not sent, and neither is the time in force then.
#[derive(Clone, Debug)]
pub struct OrderRequest {
    pub symbol: String,
    pub qty: String,
    pub price: Option<String>,
    pub stop_price: Option<String>,
    pub order_side: OrderSide,
    pub order_type: OrderType,
    pub time_in_force: TimeInForce,
    pub new_client_order_id: Option<String>,
}

/// An order by the amount of the quote asset to spend or receive.
#[derive(Clone, Debug)]
pub struct OrderQuoteQuantityRequest {
    pub symbol: String,
    pub quote_order_qty: String,
    pub price: Option<String>,
    pub order_side: OrderSide,
    pub order_type: OrderType,
    pub time_in_force: TimeInForce,
    pub new_client_order_id: Option<String>,
}

#[derive(Clone, Copy, Debug, PartialEq, Eq, Structural)]
pub enum OrderType {
    Limit,
    Market,
    StopLossLimit,
}

impl OrderType {
    /// The name by which the exchange knows the type.
    pub open spec fn text(self) -> Seq<char> {
        match self {
            OrderType::Limit => "LIMIT"@,
            OrderType::Market => "MARKET"@,
            OrderType::StopLossLimit => "STOP_LOSS_LIMIT"@,
        }
    }

    pub fn to_string(&self) -> (name: String)
        ensures
            name@ == self.text(),
    {
        match self {
            OrderType::Limit => String::from_str("LIMIT"),
            OrderType::Market => String::from_str("MARKET"),
            OrderType::StopLossLimit => String::from_str("STOP_LOSS_LIMIT"),
        }
    }
}

#[derive(Clone, Copy, Debug, PartialEq, Eq, Structural)]
pub enum OrderSide {
    Buy,
    Sell,
}

impl OrderSide {
    /// The name by which the exchange knows the side.
    pub open spec fn text(self) -> Seq<char> {
        match self {
            OrderSide::Buy => "BUY"@,
            OrderSide::Sell => "SELL"@,
        }
    }

    pub fn to_string(&self) -> (name: String)
        ensures
            name@ == self.text(),
    {
        match self {
            OrderSide::Buy => String::from_str("BUY"),
            OrderSide::Sell => String::from_str("SELL"),
        }
    }
}

/// How long an order stays in force: until cancelled, immediately or not at
/// all, or filled as a whole or not at all.
#[allow(clippy::all)]
#[derive(Clone, Copy, Debug, PartialEq, Eq, Structural)]
pub enum TimeInForce {
    GTC,
    IOC,
    FOK,
}

impl TimeInForce {
    /// The name by which the exchange knows the rule.
    pub open spec fn text(self) -> Seq<char> {
        match self {
            TimeInForce::GTC => "GTC"@,
            TimeInForce::IOC => "IOC"@,
            TimeInForce::FOK => "FOK"@,
        }
    }

    pub fn to_string(&self) -> (name: String)
        ensures
            name@ == self.text(),
    {
        match self {
            TimeInForce::GTC => String::from_str("GTC"),
            TimeInForce::IOC => String::from_str("IOC"),
            TimeInForce::FOK => String::from_str("FOK"),
        }
    }
}

/// The parameters of a priced order: the price and the time in force go
/// together, or neither is sent.
pub open spec fn with_price(entries: Entries, price: Option<Seq<char>>, time_in_force: TimeInForce)
    -> Entries {
    match price {
        Some(p) => with_entry(
            with_entry(entries, "price"@, p),
            "timeInForce"@,
            time_in_force.text(),
        ),
        None => entries,
    }
}

/// The parameters of an order by quantity.
pub open spec fn order_entries(
    symbol: Seq<char>,
    qty: Seq<char>,
    price: Option<Seq<char>>,
    stop_price: Option<Seq<char>>,
    order_side: OrderSide,
    order_type: OrderType,
    time_in_force: TimeInForce,
    new_client_order_id: Option<Seq<char>>,
) -> Entries {
    let named = with_entry(Entries::empty(), "symbol"@, symbol);
    let sided = with_entry(named, "side"@, order_side.text());
    let typed = with_entry(sided, "type"@, order_type.text());
    let sized = with_entry(typed, "quantity"@, qty);
    let stopped = with_optional_text(sized, "stopPrice"@, stop_price);
    let priced = with_price(stopped, price, time_in_force);
    with_optional_text(priced, "newClientOrderId"@, new_client_order_id)
}

/// The parameters of an order by quote quantity.
pub open spec fn quote_order_entries(
    symbol: Seq<char>,
    quote_order_qty: Seq<char>,
    price: Option<Seq<char>>,
    order_side: OrderSide,
    order_type: OrderType,
    time_in_force: TimeInForce,
    new_client_order_id: Option<Seq<char>>,
) -> Entries {
    let named = with_entry(Entries::empty(), "symbol"@, symbol);
    let sided = with_entry(named, "side"@, order_side.text());
    let typed = with_entry(sided, "type"@, order_type.text());
    let sized = with_entry(typed, "quoteOrderQty"@, quote_order_qty);
    let priced = with_price(sized, price, time_in_force);
    with_optional_text(priced, "newClientOrderId"@, new_client_order_id)
}

fn set_price(parameters: &mut Params, price: &Option<String>, time_in_force: TimeInForce)
    ensures
        final(parameters)@ == with_price(old(parameters)@, optional_text(*price), time_in_force),
{
    match price {
        Some(p) => {
            parameters.insert(String::from_str("price"), p.clone());
            parameters.insert(String::from_str("timeInForce"), time_in_force.to_string());
        },
        None => {},
    }
}

/// The parameters of an order by quantity.
pub fn build_order(order: OrderRequest) -> (parameters: Params)
    ensures
        parameters@ == order_entries(
            order.symbol@,
            order.qty@,
            optional_text(order.price),
            optional_text(order.stop_price),
            order.order_side,
            order.order_type,
            order.time_in_force,
            optional_text(order.new_client_order_id),
        ),
{
    let mut order_parameters = Params::new();
    order_parameters.insert(String::from_str("symbol"), order.symbol);
    order_parameters.insert(String::from_str("side"), order.order_side.to_string());
    order_parameters.insert(String::from_str("type"), order.order_type.to_string());
    order_parameters.insert(String::from_str("quantity"), order.qty);
    order_parameters.set_optional_text("stopPrice", &order.stop_price);
    set_price(&mut order_parameters, &order.price, order.time_in_force);
    order_parameters.set_optional_text("newClientOrderId", &order.new_client_order_id);
    order_parameters
}

/// The parameters of an order by quote quantity.
pub fn build_quote_quantity_order(order: OrderQuoteQuantityRequest) -> (parameters: Params)
    ensures
        parameters@ == quote_order_entries(
            order.symbol@,
            order.quote_order_qty@,
            optional_text(order.price),
            order.order_side,
            order.order_type,
            order.time_in_force,
            optional_text(order.new_client_order_id),
        ),
{
    let mut order_parameters = Params::new();
    order_parameters.insert(String::from_str("symbol"), order.symbol);
    order_parameters.insert(String::from_str("side"), order.order_side.to_string());
    order_parameters.insert(String::from_str("type"), order.order_type.to_string());
    order_parameters.insert(String::from_str("quoteOrderQty"), order.quote_order_qty);
    set_price(&mut order_parameters, &order.price, order.time_in_force);
    order_parameters.set_optional_text("newClientOrderId", &order.new_client_order_id);
    order_parameters
}

/// An optional text of its own.
pub fn owned(text: Option<&str>) -> (r: Option<String>)
    ensures
        optional_text(r) == match text {
            Some(t) => Some(t@),
            None => None,
        },
{
    match text {
        Some(t) => Some(String::from_str(t)),
        None => None,
    }
}

/// The text of an optional text.
pub open spec fn text_of(text: Option<&str>) -> Option<Seq<char>> {
    match text {
        Some(t) => Some(t@),
        None => None,
    }
}

/// The position of the first balance of `asset` among `balances`, looking
/// from position `from` on.
pub open spec fn balance_position(balances: Seq<Balance>, asset: Seq<char>, from: int) -> Option<
    int,
>
    decreases balances.len() - from,
{
    if from < 0 || from >= balances.len() {
        None
    } else if balances[from].asset@ == asset {
        Some(from)
    } else {
        balance_position(balances, asset, from + 1)
    }
}

impl Account {
    /// The endpoints of the account with these keys at `client`'s host.
    pub fn with_client(client: Client, recv_window: u64) -> (account: Account)
        ensures
            account.client == client,
            account.recv_window == recv_window,
    {
        Account { client, recv_window }
    }

    /// The request for the account's information.
    pub fn get_account(&self) -> (r: Result<Request, Error>)
        ensures
            is_timed_plan(
                self.client,
                Method::Get,
                API::Spot(Spot::Account),
                Entries::empty(),
                self.recv_window,
                r,
            ),
    {
        let parameters = Params::new();
        self.client.timed_request(
            Method::Get,
            API::Spot(Spot::Account),
            parameters,
            self.recv_window,
        )
    }

    /// The request for the open orders of a symbol.
    pub fn get_open_orders(&self, symbol: &str) -> (r: Result<Request, Error>)
        ensures
            is_timed_plan(
                self.client,
                Method::Get,
                API::Spot(Spot::OpenOrders),
                with_entry(Entries::empty(), "symbol"@, symbol@),
                self.recv_window,
                r,
            ),
    {
        let mut parameters = Params::new();
        parameters.set("symbol", symbol);
        self.client.timed_request(
            Method::Get,
            API::Spot(Spot::OpenOrders),
            parameters,
            self.recv_window,
        )
    }

    /// The request for all open orders.
    pub fn get_all_open_orders(&self) -> (r: Result<Request, Error>)
        ensures
            is_timed_plan(
                self.client,
                Method::Get,
                API::Spot(Spot::OpenOrders),
                Entries::empty(),
                self.recv_window,
                r,
            ),
    {
        let parameters = Params::new();
        self.client.timed_request(
            Method::Get,
            API::Spot(Spot::OpenOrders),
            parameters,
            self.recv_window,
        )
    }

    /// The request that cancels all open orders of a symbol.
    pub fn cancel_all_open_orders(&self, symbol: &str) -> (r: Result<Request, Error>)
        ensures
            is_timed_plan(
                self.client,
                Method::Delete,
                API::Spot(Spot::OpenOrders),
                with_entry(Entries::empty(), "symbol"@, symbol@),
                self.recv_window,
                r,
            ),
    {
        let mut parameters = Params::new();
        parameters.set("symbol", symbol);
        self.client.timed_request(
            Method::Delete,
            API::Spot(Spot::OpenOrders),
            parameters,
            self.recv_window,
        )
    }

    /// The request for the status of an order.
    pub fn order_status(&self, symbol: &str, order_id: u64) -> (r: Result<Request, Error>)
        ensures
            is_timed_plan(
                self.client,
                Method::Get,
                API::Spot(Spot::Order),
                with_entry(
                    with_entry(Entries::empty(), "symbol"@, symbol@),
                    "orderId"@,
                    decimal(order_id as nat),
                ),
                self.recv_window,
                r,
            ),
    {
        let mut parameters = Params::new();
        parameters.set("symbol", symbol);
        parameters.set_number("orderId", order_id);
        self.client.timed_request(Method::Get, API::Spot(Spot::Order), parameters, self.recv_window)
    }

    /// The request for the status of an order, validated but not carried
    /// out.
    pub fn test_order_status(&self, symbol: &str, order_id: u64) -> (r: Result<Request, Error>)
        ensures
            is_timed_plan(
                self.client,
                Method::Get,
                API::Spot(Spot::OrderTest),
                with_entry(
                    with_entry(Entries::empty(), "symbol"@, symbol@),
                    "orderId"@,
                    decimal(order_id as nat),
                ),
                self.recv_window,
                r,
            ),
    {
        let mut parameters = Params::new();
        parameters.set("symbol", symbol);
        parameters.set_number("orderId", order_id);
        self.client.timed_request(
            Method::Get,
            API::Spot(Spot::OrderTest),
            parameters,
            self.recv_window,
        )
    }

    /// A limit order to buy.
    pub fn limit_buy(
        &self,
        symbol: &str,
        qty: &str,
        price: Option<&str>,
    ) -> (r: Result<Request, Error>)
        ensures
            is_timed_plan(
                self.client,
                Method::Post,
                API::Spot(Spot::Order),
                order_entries(
                    symbol@,
                    qty@,
                    text_of(price),
                    None,
                    OrderSide::Buy,
                    OrderType::Limit,
                    TimeInForce::GTC,
                    None,
                ),
                self.recv_window,
                r,
            ),
    {
        let order = OrderRequest {
            symbol: String::from_str(symbol),
            qty: String::from_str(qty),
            price: owned(price),
            stop_price: None,
            order_side: OrderSide::Buy,
            order_type: OrderType::Limit,
            time_in_force: TimeInForce::GTC,
            new_client_order_id: None,
        };
        let parameters = build_order(order);
        self.client.timed_request(
            Method::Post,
            API::Spot(Spot::Order),
            parameters,
            self.recv_window,
        )
    }

    /// A limit order to buy, validated but not carried out.
    pub fn test_limit_buy(
        &self,
        symbol: &str,
        qty: &str,
        price: Option<&str>,
    ) -> (r: Result<Request, Error>)
        ensures
            is_timed_plan(
                self.client,
                Method::Post,
                API::Spot(Spot::OrderTest),
                order_entries(
                    symbol@,
                    qty@,
                    text_of(price),
                    None,
                    OrderSide::Buy,
                    OrderType::Limit,
                    TimeInForce::GTC,
                    None,
                ),
                self.recv_window,
                r,
            ),
    {
        let order = OrderRequest {
            symbol: String::from_str(symbol),
            qty: String::from_str(qty),
            price: owned(price),
            stop_price: None,
            order_side: OrderSide::Buy,
            order_type: OrderType::Limit,
            time_in_force: TimeInForce::GTC,
            new_client_order_id: None,
        };
        let parameters = build_order(order);
        self.client.timed_request(
            Method::Post,
            API::Spot(Spot::OrderTest),
            parameters,
            self.recv_window,
        )
    }

    /// A limit order to sell.
    pub fn limit_sell(
        &self,
        symbol: &str,
        qty: &str,
        price: Option<&str>,
    ) -> (r: Result<Request, Error>)
        ensures
            is_timed_plan(
                self.client,
                Method::Post,
                API::Spot(Spot::Order),
                order_entries(
                    symbol@,
                    qty@,
                    text_of(price),
                    None,
                    OrderSide::Sell,
                    OrderType::Limit,
                    TimeInForce::GTC,
                    None,
                ),
                self.recv_window,
                r,
            ),
    {
        let order = OrderRequest {
            symbol: String::from_str(symbol),
            qty: String::from_str(qty),
            price: owned(price),
            stop_price: None,
            order_side: OrderSide::Sell,
            order_type: OrderType::Limit,
            time_in_force: TimeInForce::GTC,
            new_client_order_id: None,
        };
        let parameters = build_order(order);
        self.client.timed_request(
            Method::Post,
            API::Spot(Spot::Order),
            parameters,
            self.recv_window,
        )
    }

    /// A limit order to sell, validated but not carried out.
    pub fn test_limit_sell(
        &self,
        symbol: &str,
        qty: &str,
        price: Option<&str>,
    ) -> (r: Result<Request, Error>)
        ensures
            is_timed_plan(
                self.client,
                Method::Post,
                API::Spot(Spot::OrderTest),
                order_entries(
                    symbol@,
                    qty@,
                    text_of(price),
                    None,
                    OrderSide::Sell,
                    OrderType::Limit,
                    TimeInForce::GTC,
                    None,
                ),
                self.recv_window,
                r,
            ),
    {
        let order = OrderRequest {
            symbol: String::from_str(symbol),
            qty: String::from_str(qty),
            price: owned(price),
            stop_price: None,
            order_side: OrderSide::Sell,
            order_type: OrderType::Limit,
            time_in_force: TimeInForce::GTC,
            new_client_order_id: None,
        };
        let parameters = build_order(order);
        self.client.timed_request(
            Method::Post,
            API::Spot(Spot::OrderTest),
            parameters,
            self.recv_window,
        )
    }

    /// A market order to buy.
    pub fn market_buy(&self, symbol: &str, qty: &str) -> (r: Result<Request, Error>)
        ensures
            is_timed_plan(
                self.client,
                Method::Post,
                API::Spot(Spot::Order),
                order_entries(
                    symbol@,
                    qty@,
                    None,
                    None,
                    OrderSide::Buy,
                    OrderType::Market,
                    TimeInForce::GTC,
                    None,
                ),
                self.recv_window,
                r,
            ),
    {
        let order = OrderRequest {
            symbol: String::from_str(symbol),
            qty: String::from_str(qty),
            price: None,
            stop_price: None,
            order_side: OrderSide::Buy,
            order_type: OrderType::Market,
            time_in_force: TimeInForce::GTC,
            new_client_order_id: None,
        };
        let parameters = build_order(order);
        self.client.timed_request(
            Method::Post,
            API::Spot(Spot::Order),
            parameters,
            self.recv_window,
        )
    }

    /// A market order to buy, validated but not carried out.
    pub fn test_market_buy(&self, symbol: &str, qty: &str) -> (r: Result<Request, Error>)
        ensures
            is_timed_plan(
                self.client,
                Method::Post,
                API::Spot(Spot::OrderTest),
                order_entries(
                    symbol@,
                    qty@,
                    None,
                    None,
                    OrderSide::Buy,
                    OrderType::Market,
                    TimeInForce::GTC,
                    None,
                ),
                self.recv_window,
                r,
            ),
    {
        let order = OrderRequest {
            symbol: String::from_str(symbol),
            qty: String::from_str(qty),
            price: None,
            stop_price: None,
            order_side: OrderSide::Buy,
            order_type: OrderType::Market,
            time_in_force: TimeInForce::GTC,
            new_client_order_id: None,
        };
        let parameters = build_order(order);
        self.client.timed_request(
            Method::Post,
            API::Spot(Spot::OrderTest),
            parameters,
            self.recv_window,
        )
    }

    /// A market order to buy for an amount of the quote asset.
    pub fn market_buy_using_quote_quantity(
        &self,
        symbol: &str,
        quote_order_qty: &str,
    ) -> (r: Result<Request, Error>)
        ensures
            is_timed_plan(
                self.client,
                Method::Post,
                API::Spot(Spot::Order),
                quote_order_entries(
                    symbol@,
                    quote_order_qty@,
                    None,
                    OrderSide::Buy,
                    OrderType::Market,
                    TimeInForce::GTC,
                    None,
                ),
                self.recv_window,
                r,
            ),
    {
        let order = OrderQuoteQuantityRequest {
            symbol: String::from_str(symbol),
            quote_order_qty: String::from_str(quote_order_qty),
            price: None,
            order_side: OrderSide::Buy,
            order_type: OrderType::Market,
            time_in_force: TimeInForce::GTC,
            new_client_order_id: None,
        };
        let parameters = build_quote_quantity_order(order);
        self.client.timed_request(
            Method::Post,
            API::Spot(Spot::Order),
            parameters,
            self.recv_window,
        )
    }

    /// A market order to buy for an amount of the quote asset, validated but
    /// not carried out.
    pub fn test_market_buy_using_quote_quantity(
        &self,
        symbol: &str,
        quote_order_qty: &str,
    ) -> (r: Result<Request, Error>)
        ensures
            is_timed_plan(
                self.client,
                Method::Post,
                API::Spot(Spot::OrderTest),
                quote_order_entries(
                    symbol@,
                    quote_order_qty@,
                    None,
                    OrderSide::Buy,
                    OrderType::Market,
                    TimeInForce::GTC,
                    None,
                ),
                self.recv_window,
                r,
            ),
    {
        let order = OrderQuoteQuantityRequest {
            symbol: String::from_str(symbol),
            quote_order_qty: String::from_str(quote_order_qty),
            price: None,
            order_side: OrderSide::Buy,
            order_type: OrderType::Market,
            time_in_force: TimeInForce::GTC,
            new_client_order_id: None,
        };
        let parameters = build_quote_quantity_order(order);
        self.client.timed_request(
            Method::Post,
            API::Spot(Spot::OrderTest),
            parameters,
            self.recv_window,
        )
    }

    /// A market order to sell.
    pub fn market_sell(&self, symbol: &str, qty: &str) -> (r: Result<Request, Error>)
        ensures
            is_timed_plan(
                self.client,
                Method::Post,
                API::Spot(Spot::Order),
                order_entries(
                    symbol@,
                    qty@,
                    None,
                    None,
                    OrderSide::Sell,
                    OrderType::Market,
                    TimeInForce::GTC,
                    None,
                ),
                self.recv_window,
                r,
            ),
    {
        let order = OrderRequest {
            symbol: String::from_str(symbol),
            qty: String::from_str(qty),
            price: None,
            stop_price: None,
            order_side: OrderSide::Sell,
            order_type: OrderType::Market,
            time_in_force: TimeInForce::GTC,
            new_client_order_id: None,
        };
        let parameters = build_order(order);
        self.client.timed_request(
            Method::Post,
            API::Spot(Spot::Order),
            parameters,
            self.recv_window,
        )
    }

    /// A market order to sell, validated but not carried out.
    pub fn test_market_sell(&self, symbol: &str, qty: &str) -> (r: Result<Request, Error>)
        ensures
            is_timed_plan(
                self.client,
                Method::Post,
                API::Spot(Spot::OrderTest),
                order_entries(
                    symbol@,
                    qty@,
                    None,
                    None,
                    OrderSide::Sell,
                    OrderType::Market,
                    TimeInForce::GTC,
                    None,
                ),
                self.recv_window,
                r,
            ),
    {
        let order = OrderRequest {
            symbol: String::from_str(symbol),
            qty: String::from_str(qty),
            price: None,
            stop_price: None,
            order_side: OrderSide::Sell,
            order_type: OrderType::Market,
            time_in_force: TimeInForce::GTC,
            new_client_order_id: None,
        };
        let parameters = build_order(order);
        self.client.timed_request(
            Method::Post,
            API::Spot(Spot::OrderTest),
            parameters,
            self.recv_window,
        )
    }

    /// A market order to sell for an amount of the quote asset.
    pub fn market_sell_using_quote_quantity(
        &self,
        symbol: &str,
        quote_order_qty: &str,
    ) -> (r: Result<Request, Error>)
        ensures
            is_timed_plan(
                self.client,
                Method::Post,
                API::Spot(Spot::Order),
                quote_order_entries(
                    symbol@,
                    quote_order_qty@,
                    None,
                    OrderSide::Sell,
                    OrderType::Market,
                    TimeInForce::GTC,
                    None,
                ),
                self.recv_window,
                r,
            ),
    {
        let order = OrderQuoteQuantityRequest {
            symbol: String::from_str(symbol),
            quote_order_qty: String::from_str(quote_order_qty),
            price: None,
            order_side: OrderSide::Sell,
            order_type: OrderType::Market,
            time_in_force: TimeInForce::GTC,
            new_client_order_id: None,
        };
        let parameters = build_quote_quantity_order(order);
        self.client.timed_request(
            Method::Post,
            API::Spot(Spot::Order),
            parameters,
            self.recv_window,
        )
    }

    /// A market order to sell for an amount of the quote asset, validated
    /// but not carried out.
    pub fn test_market_sell_using_quote_quantity(
        &self,
        symbol: &str,
        quote_order_qty: &str,
    ) -> (r: Result<Request, Error>)
        ensures
            is_timed_plan(
                self.client,
                Method::Post,
                API::Spot(Spot::OrderTest),
                quote_order_entries(
                    symbol@,
                    quote_order_qty@,
                    None,
                    OrderSide::Sell,
                    OrderType::Market,
                    TimeInForce::GTC,
                    None,
                ),
                self.recv_window,
                r,
            ),
    {
        let order = OrderQuoteQuantityRequest {
            symbol: String::from_str(symbol),
            quote_order_qty: String::from_str(quote_order_qty),
            price: None,
            order_side: OrderSide::Sell,
            order_type: OrderType::Market,
            time_in_force: TimeInForce::GTC,
            new_client_order_id: None,
        };
        let parameters = build_quote_quantity_order(order);
        self.client.timed_request(
            Method::Post,
            API::Spot(Spot::OrderTest),
            parameters,
            self.recv_window,
        )
    }

    /// A stop-limit order to buy.
    pub fn stop_limit_buy_order(
        &self,
        symbol: &str,
        qty: &str,
        price: Option<&str>,
        stop_price: &str,
        time_in_force: TimeInForce,
    ) -> (r: Result<Request, Error>)
        ensures
            is_timed_plan(
                self.client,
                Method::Post,
                API::Spot(Spot::Order),
                order_entries(
                    symbol@,
                    qty@,
                    text_of(price),
                    Some(stop_price@),
                    OrderSide::Buy,
                    OrderType::StopLossLimit,
                    time_in_force,
                    None,
                ),
                self.recv_window,
                r,
            ),
    {
        let order = OrderRequest {
            symbol: String::from_str(symbol),
            qty: String::from_str(qty),
            price: owned(price),
            stop_price: Some(String::from_str(stop_price)),
            order_side: OrderSide::Buy,
            order_type: OrderType::StopLossLimit,
            time_in_force: time_in_force,
            new_client_order_id: None,
        };
        let parameters = build_order(order);
        self.client.timed_request(
            Method::Post,
            API::Spot(Spot::Order),
            parameters,
            self.recv_window,
        )
    }

    /// A stop-limit order to buy, validated but not carried out.
    pub fn test_stop_limit_buy_order(
        &self,
        symbol: &str,
        qty: &str,
        price: Option<&str>,
        stop_price: &str,
        time_in_force: TimeInForce,
    ) -> (r: Result<Request, Error>)
        ensures
            is_timed_plan(
                self.client,
                Method::Post,
                API::Spot(Spot::OrderTest),
                order_entries(
                    symbol@,
                    qty@,
                    text_of(price),
                    Some(stop_price@),
                    OrderSide::Buy,
                    OrderType::StopLossLimit,
                    time_in_force,
                    None,
                ),
                self.recv_window,
                r,
            ),
    {
        let order = OrderRequest {
            symbol: String::from_str(symbol),
            qty: String::from_str(qty),
            price: owned(price),
            stop_price: Some(String::from_str(stop_price)),
            order_side: OrderSide::Buy,
            order_type: OrderType::StopLossLimit,
            time_in_force: time_in_force,
            new_client_order_id: None,
        };
        let parameters = build_order(order);
        self.client.timed_request(
            Method::Post,
            API::Spot(Spot::OrderTest),
            parameters,
            self.recv_window,
        )
    }

    /// A stop-limit order to sell.
    pub fn stop_limit_sell_order(
        &self,
        symbol: &str,
        qty: &str,
        price: Option<&str>,
        stop_price: &str,
        time_in_force: TimeInForce,
    ) -> (r: Result<Request, Error>)
        ensures
            is_timed_plan(
                self.client,
                Method::Post,
                API::Spot(Spot::Order),
                order_entries(
                    symbol@,
                    qty@,
                    text_of(price),
                    Some(stop_price@),
                    OrderSide::Sell,
                    OrderType::StopLossLimit,
                    time_in_force,
                    None,
                ),
                self.recv_window,
                r,
            ),
    {
        let order = OrderRequest {
            symbol: String::from_str(symbol),
            qty: String::from_str(qty),
            price: owned(price),
            stop_price: Some(String::from_str(stop_price)),
            order_side: OrderSide::Sell,
            order_type: OrderType::StopLossLimit,
            time_in_force: time_in_force,
            new_client_order_id: None,
        };
        let parameters = build_order(order);
        self.client.timed_request(
            Method::Post,
            API::Spot(Spot::Order),
            parameters,
            self.recv_window,
        )
    }

    /// A stop-limit order to sell, validated but not carried out.
    pub fn test_stop_limit_sell_order(
        &self,
        symbol: &str,
        qty: &str,
        price: Option<&str>,
        stop_price: &str,
        time_in_force: TimeInForce,
    ) -> (r: Result<Request, Error>)
        ensures
            is_timed_plan(
                self.client,
                Method::Post,
                API::Spot(Spot::OrderTest),
                order_entries(
                    symbol@,
                    qty@,
                    text_of(price),
                    Some(stop_price@),
                    OrderSide::Sell,
                    OrderType::StopLossLimit,
                    time_in_force,
                    None,
                ),
                self.recv_window,
                r,
            ),
    {
        let order = OrderRequest {
            symbol: String::from_str(symbol),
            qty: String::from_str(qty),
            price: owned(price),
            stop_price: Some(String::from_str(stop_price)),
            order_side: OrderSide::Sell,
            order_type: OrderType::StopLossLimit,
            time_in_force: time_in_force,
            new_client_order_id: None,
        };
        let parameters = build_order(order);
        self.client.timed_request(
            Method::Post,
            API::Spot(Spot::OrderTest),
            parameters,
            self.recv_window,
        )
    }

    /// An order with every part chosen by the caller.
    #[allow(clippy::too_many_arguments)]
    pub fn custom_order(
        &self,
        symbol: &str,
        qty: &str,
        price: Option<&str>,
        stop_price: Option<&str>,
        order_side: OrderSide,
        order_type: OrderType,
        time_in_force: TimeInForce,
        new_client_order_id: Option<String>,
    ) -> (r: Result<Request, Error>)
        ensures
            is_timed_plan(
                self.client,
                Method::Post,
                API::Spot(Spot::Order),
                order_entries(
                    symbol@,
                    qty@,
                    text_of(price),
                    text_of(stop_price),
                    order_side,
                    order_type,
                    time_in_force,
                    optional_text(new_client_order_id),
                ),
                self.recv_window,
                r,
            ),
    {
        let order = OrderRequest {
            symbol: String::from_str(symbol),
            qty: String::from_str(qty),
            price: owned(price),
            stop_price: owned(stop_price),
            order_side,
            order_type,
            time_in_force,
            new_client_order_id,
        };
        let parameters = build_order(order);
        self.client.timed_request(
            Method::Post,
            API::Spot(Spot::Order),
            parameters,
            self.recv_window,
        )
    }

    /// An order with every part chosen by the caller, validated but not
    /// carried out.
    #[allow(clippy::too_many_arguments)]
    pub fn test_custom_order(
        &self,
        symbol: &str,
        qty: &str,
        price: Option<&str>,
        stop_price: Option<&str>,
        order_side: OrderSide,
        order_type: OrderType,
        time_in_force: TimeInForce,
        new_client_order_id: Option<String>,
    ) -> (r: Result<Request, Error>)
        ensures
            is_timed_plan(
                self.client,
                Method::Post,
                API::Spot(Spot::OrderTest),
                order_entries(
                    symbol@,
                    qty@,
                    text_of(price),
                    text_of(stop_price),
                    order_side,
                    order_type,
                    time_in_force,
                    optional_text(new_client_order_id),
                ),
                self.recv_window,
                r,
            ),
    {
        let order = OrderRequest {
            symbol: String::from_str(symbol),
            qty: String::from_str(qty),
            price: owned(price),
            stop_price: owned(stop_price),
            order_side,
            order_type,
            time_in_force,
            new_client_order_id,
        };
        let parameters = build_order(order);
        self.client.timed_request(
            Method::Post,
            API::Spot(Spot::OrderTest),
            parameters,
            self.recv_window,
        )
    }

    /// The request that cancels an order.
    pub fn cancel_order(&self, symbol: &str, order_id: u64) -> (r: Result<Request, Error>)
        ensures
            is_timed_plan(
                self.client,
                Method::Delete,
                API::Spot(Spot::Order),
                with_entry(
                    with_entry(Entries::empty(), "symbol"@, symbol@),
                    "orderId"@,
                    decimal(order_id as nat),
                ),
                self.recv_window,
                r,
            ),
    {
        let mut parameters = Params::new();
        parameters.set("symbol", symbol);
        parameters.set_number("orderId", order_id);
        self.client.timed_request(
            Method::Delete,
            API::Spot(Spot::Order),
            parameters,
            self.recv_window,
        )
    }

    /// The request that cancels the order that the client gave this
    /// identifier.
    pub fn cancel_order_with_client_id(
        &self,
        symbol: &str,
        orig_client_order_id: &str,
    ) -> (r: Result<Request, Error>)
        ensures
            is_timed_plan(
                self.client,
                Method::Delete,
                API::Spot(Spot::Order),
                with_entry(
                    with_entry(Entries::empty(), "symbol"@, symbol@),
                    "origClientOrderId"@,
                    orig_client_order_id@,
                ),
                self.recv_window,
                r,
            ),
    {
        let mut parameters = Params::new();
        parameters.set("symbol", symbol);
        parameters.set("origClientOrderId", orig_client_order_id);
        self.client.timed_request(
            Method::Delete,
            API::Spot(Spot::Order),
            parameters,
            self.recv_window,
        )
    }

    /// The request that cancels an order, validated but not carried out.
    pub fn test_cancel_order(&self, symbol: &str, order_id: u64) -> (r: Result<Request, Error>)
        ensures
            is_timed_plan(
                self.client,
                Method::Delete,
                API::Spot(Spot::OrderTest),
                with_entry(
                    with_entry(Entries::empty(), "symbol"@, symbol@),
                    "orderId"@,
                    decimal(order_id as nat),
                ),
                self.recv_window,
                r,
            ),
    {
        let mut parameters = Params::new();
        parameters.set("symbol", symbol);
        parameters.set_number("orderId", order_id);
        self.client.timed_request(
            Method::Delete,
            API::Spot(Spot::OrderTest),
            parameters,
            self.recv_window,
        )
    }

    /// The request for the trades of a symbol.
    pub fn trade_history(&self, symbol: &str) -> (r: Result<Request, Error>)
        ensures
            is_timed_plan(
                self.client,
                Method::Get,
                API::Spot(Spot::MyTrades),
                with_entry(Entries::empty(), "symbol"@, symbol@),
                self.recv_window,
                r,
            ),
    {
        let mut parameters = Params::new();
        parameters.set("symbol", symbol);
        self.client.timed_request(
            Method::Get,
            API::Spot(Spot::MyTrades),
            parameters,
            self.recv_window,
        )
    }

    /// The request for the commission rates of a symbol.
    pub fn get_commission(&self, symbol: &str) -> (r: Result<Request, Error>)
        ensures
            is_timed_plan(
                self.client,
                Method::Get,
                API::Spot(Spot::AccountCommission),
                with_entry(Entries::empty(), "symbol"@, symbol@),
                self.recv_window,
                r,
            ),
    {
        let mut parameters = Params::new();
        parameters.set("symbol", symbol);
        self.client.timed_request(
            Method::Get,
            API::Spot(Spot::AccountCommission),
            parameters,
            self.recv_window,
        )
    }

    /// The balance of `asset` among the balances of the account: the first
    /// one of that asset, or `AssetNotFound`.
    pub fn get_balance<'a>(&self, balances: &'a Vec<Balance>, asset: &str) -> (r: Result<
        &'a Balance,
        Error,
    >)
        ensures
            match balance_position(balances@, asset@, 0) {
                Some(i) => (r matches Ok(found) && *found == balances@[i]),
                None => (r matches Err(Error::AssetNotFound)),
            },
    {
        let n = balances.len();
        let mut i: usize = 0;
        while i < n
            invariant
                n == balances@.len(),
                i <= n,
                balance_position(balances@, asset@, 0) == balance_position(
                    balances@,
                    asset@,
                    i as int,
                ),
            decreases n - i,
        {
            if str_eq(balances[i].asset.as_str(), asset) {
                return Ok(&balances[i]);
            }
            i += 1;
        }
        Err(Error::AssetNotFound)
    }

    /// The request for the identifier of a download of the historical data
    /// of `symbol` between `start_time` and `end_time`, in milliseconds.
    /// The timestamp given is replaced by that of the clock when the request
    /// is stamped.
    pub fn download_hist_data_get_download_id(
        &self,
        symbol: &str,
        start_time: u128,
        end_time: u128,
        data_type: &str,
        timestamp: u128,
    ) -> (r: Result<Request, Error>)
        ensures
            is_timed_plan(
                self.client,
                Method::Post,
                API::Futures(Futures::HistoricalDataDownloadId),
                download_entries(symbol@, start_time, end_time, data_type@, timestamp),
                self.recv_window,
                r,
            ),
    {
        let mut parameters = Params::new();
        parameters.set("symbol", symbol);
        parameters.insert(String::from_str("startTime"), u128_to_string(start_time));
        parameters.insert(String::from_str("endTime"), u128_to_string(end_time));
        parameters.set("dataType", data_type);
        parameters.insert(String::from_str("timestamp"), u128_to_string(timestamp));
        self.client.timed_request(
            Method::Post,
            API::Futures(Futures::HistoricalDataDownloadId),
            parameters,
            self.recv_window,
        )
    }
}

/// The parameters of a request for a download of historical data.
pub open spec fn download_entries(
    symbol: Seq<char>,
    start_time: u128,
    end_time: u128,
    data_type: Seq<char>,
    timestamp: u128,
) -> Entries {
    let named = with_entry(Entries::empty(), "symbol"@, symbol);
    let begun = with_entry(named, "startTime"@, decimal(start_time as nat));
    let ended = with_entry(begun, "endTime"@, decimal(end_time as nat));
    let typed = with_entry(ended, "dataType"@, data_type);
    with_entry(typed, "timestamp"@, decimal(timestamp as nat))
}

/// The longest span of one download: three months of thirty days, in
/// milliseconds.
pub const DOWNLOAD_SPAN: u128 = 7_776_000_000;

/// The spans that a download of historical data is asked for in, one after
/// the other: what is left of the time between a start and an end.
#[derive(Clone, Copy, Debug, PartialEq, Eq)]
pub struct DownloadWindows {
    next_start: u128,
    remaining: u128,
}

impl DownloadWindows {
    /// The start of the span that is due next.
    pub closed spec fn next_start(&self) -> u128 {
        self.next_start
    }

    /// The time that is not asked for yet.
    pub closed spec fn remaining(&self) -> u128 {
        self.remaining
    }

    /// The end of all spans.
    pub open spec fn end(&self) -> int {
        self.next_start() + self.remaining()
    }

    /// The length of the span that is due next: what remains, but no more
    /// than `DOWNLOAD_SPAN`.
    pub open spec fn span(&self) -> u128 {
        if self.remaining() < DOWNLOAD_SPAN {
            self.remaining()
        } else {
            DOWNLOAD_SPAN
        }
    }

    #[verifier::type_invariant]
    spec fn fits(self) -> bool {
        self.next_start + self.remaining <= u128::MAX
    }

    /// The spans between `start_time` and `end_time`.
    pub fn new(start_time: u128, end_time: u128) -> (windows: DownloadWindows)
        requires
            start_time <= end_time,
        ensures
            windows.next_start() == start_time,
            windows.end() == end_time,
    {
        DownloadWindows { next_start: start_time, remaining: end_time - start_time }
    }

    /// The span that is due next, by its start and its end; `None` when all
    /// the time is asked for.
    pub fn next(&self) -> (window: Option<(u128, u128)>)
        ensures
            window is None <==> self.remaining() == 0,
            window matches Some(w) ==> w.0 == self.next_start() && w.1 == self.next_start()
                + self.span(),
    {
        proof {
            use_type_invariant(self);
        }
        if self.remaining == 0 {
            None
        } else {
            let span = if self.remaining < DOWNLOAD_SPAN {
                self.remaining
            } else {
                DOWNLOAD_SPAN
            };
            Some((self.next_start, self.next_start + span))
        }
    }

    /// Moves on to the span after the one that is due.
    pub fn advance(&mut self)
        ensures
            final(self).next_start() == old(self).next_start() + old(self).span(),
            final(self).remaining() == old(self).remaining() - old(self).span(),
            final(self).end() == old(self).end(),
    {
        proof {
            use_type_invariant(&*self);
        }
        let span = if self.remaining < DOWNLOAD_SPAN {
            self.remaining
        } else {
            DOWNLOAD_SPAN
        };
        *self = DownloadWindows {
            next_start: self.next_start + span,
            remaining: self.remaining - span,
        };
    }
}

} // verus!
