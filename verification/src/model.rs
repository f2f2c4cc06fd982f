//! The data that the exchange sends: replies of the REST interface and the
//! events of the streams, each with the form of the JSON document it is read
//! from.

use vstd::prelude::*;
use vstd::string::*;

use crate::errors::Error;
use crate::json::item_values;
use crate::json::lemma_item_values;
use crate::json::member;
use crate::json::member_accepts;
use crate::json::member_holds;
use crate::json::optional_accepts;
use crate::json::optional_holds;
use crate::json::optional_member;
use crate::json::FromJson;
use crate::json::Json;
use crate::json::JsonValue;
use crate::json::NumberText;
use crate::text::str_eq;

verus! {

/// What a symbol's trading rules say of it.
pub trait SymbolInfo {
    fn ticker(&self) -> &str;

    fn status(&self) -> &str;
}

/// A decimal number: `mantissa` divided by ten to the power `scale`.
#[derive(Clone, Copy, Debug, PartialEq, Eq, Structural)]
pub struct Decimal {
    pub mantissa: i128,
    pub scale: u32,
}

/// What `rust_decimal`'s `FromStr` makes of a text: the number it reads, or
/// `None` where it reports an error.
pub uninterp spec fn decimal_from_str(text: Seq<char>) -> Option<Decimal>;

/// What `rust_decimal::Decimal::from_scientific` makes of a text: the number
/// it reads, or `None` where it reports an error.
pub uninterp spec fn decimal_from_scientific(text: Seq<char>) -> Option<Decimal>;

/// Parses a text with `rust_decimal`'s `FromStr` and hands back the number's
/// `mantissa()` and `scale()`. The result is a function of the text alone,
/// named `decimal_from_str`.
#[verifier::external_body]
fn parse_plain(text: &str) -> (r: Option<Decimal>)
    ensures
        r == decimal_from_str(text@),
{
    match text.parse::<rust_decimal::Decimal>() {
        Ok(d) => Some(Decimal { mantissa: d.mantissa(), scale: d.scale() }),
        Err(_) => None,
    }
}

/// Parses a text with `rust_decimal::Decimal::from_scientific` and hands back
/// the number's `mantissa()` and `scale()`. The result is a function of the
/// text alone, named `decimal_from_scientific`.
#[verifier::external_body]
fn parse_scientific(text: &str) -> (r: Option<Decimal>)
    ensures
        r == decimal_from_scientific(text@),
{
    match rust_decimal::Decimal::from_scientific(text) {
        Ok(d) => Some(Decimal { mantissa: d.mantissa(), scale: d.scale() }),
        Err(_) => None,
    }
}

/// The number that a text stands for: read as a plain numeral first, and in
/// scientific notation if that fails.
pub open spec fn decimal_of(text: Seq<char>) -> Option<Decimal> {
    match decimal_from_str(text) {
        Some(d) => Some(d),
        None => decimal_from_scientific(text),
    }
}

impl Decimal {
    /// Reads a decimal number from a text.
    pub fn parse(text: &str) -> (r: Option<Decimal>)
        ensures
            r == decimal_of(text@),
    {
        match parse_plain(text) {
            Some(d) => Some(d),
            None => parse_scientific(text),
        }
    }
}

impl FromJson for Decimal {
    /// A decimal number is sent as a string.
    open spec fn accepts(j: JsonValue) -> bool {
        j matches JsonValue::Str(s) && decimal_of(s) is Some
    }

    open spec fn holds(&self, j: JsonValue) -> bool {
        j matches JsonValue::Str(s) && decimal_of(s) == Some(*self)
    }

    fn from_json(j: &Json) -> (r: Option<Decimal>) {
        match j {
            Json::Str(s) => Decimal::parse(s.as_str()),
            _ => None,
        }
    }
}

/// Whether `j` is a price level: an array of exactly a price and a
/// quantity, or an object with the members `price` and `qty`.
pub open spec fn level_accepts(j: JsonValue) -> bool {
    match j {
        JsonValue::Array(items) => items.len() == 2 && Decimal::accepts(items[0])
            && Decimal::accepts(items[1]),
        _ => member_accepts::<Decimal>(j, "price"@) && member_accepts::<Decimal>(j, "qty"@),
    }
}

/// Whether `price` and `qty` are those of the price level `j`.
pub open spec fn level_holds(price: Decimal, qty: Decimal, j: JsonValue) -> bool {
    match j {
        JsonValue::Array(items) => items.len() == 2 && price.holds(items[0]) && qty.holds(
            items[1],
        ),
        _ => member_holds(price, j, "price"@) && member_holds(qty, j, "qty"@),
    }
}

fn level_from_json(j: &Json) -> (r: Option<(Decimal, Decimal)>)
    ensures
        r is Some <==> level_accepts(j@),
        r matches Some(l) ==> level_holds(l.0, l.1, j@),
{
    match j.as_array() {
        Some(items) => {
            proof {
                lemma_item_values(items@);
            }
            if items.len() != 2 {
                return None;
            }
            let price = Decimal::from_json(&items[0])?;
            let qty = Decimal::from_json(&items[1])?;
            Some((price, qty))
        },
        None => {
            let price = member::<Decimal>(j, "price")?;
            let qty = member::<Decimal>(j, "qty")?;
            Some((price, qty))
        },
    }
}

/// A price level on the buying side of an order book.
#[derive(Clone, Copy, Debug, PartialEq, Eq, Structural)]
pub struct Bids {
    pub price: Decimal,
    pub qty: Decimal,
}

impl Bids {
    #[must_use]
    pub fn new(price: Decimal, qty: Decimal) -> (r: Bids)
        ensures
            r == (Bids { price, qty }),
    {
        Bids { price, qty }
    }
}

impl FromJson for Bids {
    open spec fn accepts(j: JsonValue) -> bool {
        level_accepts(j)
    }

    open spec fn holds(&self, j: JsonValue) -> bool {
        level_holds(self.price, self.qty, j)
    }

    fn from_json(j: &Json) -> (r: Option<Bids>) {
        let (price, qty) = level_from_json(j)?;
        Some(Bids { price, qty })
    }
}

/// A price level on the selling side of an order book.
#[derive(Clone, Copy, Debug, PartialEq, Eq, Structural)]
pub struct Asks {
    pub price: Decimal,
    pub qty: Decimal,
}

impl FromJson for Asks {
    open spec fn accepts(j: JsonValue) -> bool {
        level_accepts(j)
    }

    open spec fn holds(&self, j: JsonValue) -> bool {
        level_holds(self.price, self.qty, j)
    }

    fn from_json(j: &Json) -> (r: Option<Asks>) {
        let (price, qty) = level_from_json(j)?;
        Some(Asks { price, qty })
    }
}

/// The direction of a transfer between the spot and the futures account.
#[derive(Clone, Copy, Debug, PartialEq, Eq, Structural)]
pub enum SpotFuturesTransferType {
    SpotToUsdtFutures,
    UsdtFuturesToSpot,
    SpotToCoinFutures,
    CoinFuturesToSpot,
}

impl SpotFuturesTransferType {
    /// The number by which the exchange knows the direction.
    pub open spec fn spec_code(self) -> u8 {
        match self {
            SpotFuturesTransferType::SpotToUsdtFutures => 1,
            SpotFuturesTransferType::UsdtFuturesToSpot => 2,
            SpotFuturesTransferType::SpotToCoinFutures => 3,
            SpotFuturesTransferType::CoinFuturesToSpot => 4,
        }
    }

    #[verifier::when_used_as_spec(spec_code)]
    pub fn code(self) -> (c: u8)
        ensures
            c == self.spec_code(),
    {
        match self {
            SpotFuturesTransferType::SpotToUsdtFutures => 1,
            SpotFuturesTransferType::UsdtFuturesToSpot => 2,
            SpotFuturesTransferType::SpotToCoinFutures => 3,
            SpotFuturesTransferType::CoinFuturesToSpot => 4,
        }
    }
}

/// The candlesticks of one reply.
#[derive(Clone, Debug, PartialEq, Eq)]
pub enum KlineSummaries {
    AllKlineSummaries(Vec<KlineSummary>),
}

/// A trading rule of a symbol. The member `filterType` of a document says
/// which rule it is.
#[derive(Clone, Debug, PartialEq, Eq)]
pub enum Filters {
    PriceFilter {
        min_price: String,
        max_price: String,
        tick_size: String,
    },
    PercentPrice {
        multiplier_up: String,
        multiplier_down: String,
        avg_price_mins: Option<NumberText>,
    },
    PercentPriceBySide {
        bid_multiplier_up: String,
        bid_multiplier_down: String,
        ask_multiplier_up: String,
        ask_multiplier_down: String,
        avg_price_mins: Option<NumberText>,
    },
    LotSize {
        min_qty: String,
        max_qty: String,
        step_size: String,
    },
    MinNotional {
        notional: Option<String>,
        min_notional: Option<String>,
        apply_to_market: Option<bool>,
        avg_price_mins: Option<NumberText>,
    },
    Notional {
        notional: Option<String>,
        min_notional: Option<String>,
        apply_to_market: Option<bool>,
        avg_price_mins: Option<NumberText>,
    },
    IcebergParts {
        limit: Option<u16>,
    },
    MaxNumOrders {
        max_num_orders: Option<u16>,
    },
    MaxNumAlgoOrders {
        max_num_algo_orders: Option<u16>,
    },
    MaxNumIcebergOrders {
        max_num_iceberg_orders: u16,
    },
    MaxPosition {
        max_position: String,
    },
    MarketLotSize {
        min_qty: String,
        max_qty: String,
        step_size: String,
    },
    TrailingData {
        min_trailing_above_delta: Option<u16>,
        max_trailing_above_delta: Option<u16>,
        min_trailing_below_delta: Option<u16>,
        max_trailing_below_delta: Option<u16>,
    },
}

/// Whether `j` has the members of the rule that is tagged `tag`.
pub open spec fn filter_accepts(tag: Seq<char>, j: JsonValue) -> bool {
    if tag == "PRICE_FILTER"@ {
        &&& member_accepts::<String>(j, "minPrice"@)
        &&& member_accepts::<String>(j, "maxPrice"@)
        &&& member_accepts::<String>(j, "tickSize"@)
    } else if tag == "PERCENT_PRICE"@ {
        &&& member_accepts::<String>(j, "multiplierUp"@)
        &&& member_accepts::<String>(j, "multiplierDown"@)
        &&& optional_accepts::<NumberText>(j, "avgPriceMins"@)
    } else if tag == "PERCENT_PRICE_BY_SIDE"@ {
        &&& member_accepts::<String>(j, "bidMultiplierUp"@)
        &&& member_accepts::<String>(j, "bidMultiplierDown"@)
        &&& member_accepts::<String>(j, "askMultiplierUp"@)
        &&& member_accepts::<String>(j, "askMultiplierDown"@)
        &&& optional_accepts::<NumberText>(j, "avgPriceMins"@)
    } else if tag == "LOT_SIZE"@ {
        &&& member_accepts::<String>(j, "minQty"@)
        &&& member_accepts::<String>(j, "maxQty"@)
        &&& member_accepts::<String>(j, "stepSize"@)
    } else if tag == "MIN_NOTIONAL"@ {
        &&& optional_accepts::<String>(j, "notional"@)
        &&& optional_accepts::<String>(j, "minNotional"@)
        &&& optional_accepts::<bool>(j, "applyToMarket"@)
        &&& optional_accepts::<NumberText>(j, "avgPriceMins"@)
    } else if tag == "NOTIONAL"@ {
        &&& optional_accepts::<String>(j, "notional"@)
        &&& optional_accepts::<String>(j, "minNotional"@)
        &&& optional_accepts::<bool>(j, "applyToMarket"@)
        &&& optional_accepts::<NumberText>(j, "avgPriceMins"@)
    } else if tag == "ICEBERG_PARTS"@ {
        &&& optional_accepts::<u16>(j, "limit"@)
    } else if tag == "MAX_NUM_ORDERS"@ {
        &&& optional_accepts::<u16>(j, "maxNumOrders"@)
    } else if tag == "MAX_NUM_ALGO_ORDERS"@ {
        &&& optional_accepts::<u16>(j, "maxNumAlgoOrders"@)
    } else if tag == "MAX_NUM_ICEBERG_ORDERS"@ {
        &&& member_accepts::<u16>(j, "maxNumIcebergOrders"@)
    } else if tag == "MAX_POSITION"@ {
        &&& member_accepts::<String>(j, "maxPosition"@)
    } else if tag == "MARKET_LOT_SIZE"@ {
        &&& member_accepts::<String>(j, "minQty"@)
        &&& member_accepts::<String>(j, "maxQty"@)
        &&& member_accepts::<String>(j, "stepSize"@)
    } else if tag == "TRAILING_DELTA"@ {
        &&& optional_accepts::<u16>(j, "minTrailingAboveDelta"@)
        &&& optional_accepts::<u16>(j, "maxTrailingAboveDelta"@)
        &&& optional_accepts::<u16>(j, "minTrailingBelowDelta"@)
        &&& optional_accepts::<u16>(j, "maxTrailingBelowDelta"@)
    } else {
        false
    }
}

impl FromJson for Filters {
    open spec fn accepts(j: JsonValue) -> bool {
        &&& j is Object
        &&& j.field("filterType"@) matches Some(JsonValue::Str(tag))
        &&& filter_accepts(tag, j)
    }

    open spec fn holds(&self, j: JsonValue) -> bool {
        match *self {
            Filters::PriceFilter { min_price, max_price, tick_size } => {
                &&& j.field("filterType"@) == Some(JsonValue::Str("PRICE_FILTER"@))
                &&& member_holds(min_price, j, "minPrice"@)
                &&& member_holds(max_price, j, "maxPrice"@)
                &&& member_holds(tick_size, j, "tickSize"@)
            },
            Filters::PercentPrice { multiplier_up, multiplier_down, avg_price_mins } => {
                &&& j.field("filterType"@) == Some(JsonValue::Str("PERCENT_PRICE"@))
                &&& member_holds(multiplier_up, j, "multiplierUp"@)
                &&& member_holds(multiplier_down, j, "multiplierDown"@)
                &&& optional_holds(avg_price_mins, j, "avgPriceMins"@)
            },
            Filters::PercentPriceBySide {
                bid_multiplier_up,
                bid_multiplier_down,
                ask_multiplier_up,
                ask_multiplier_down,
                avg_price_mins,
            } => {
                &&& j.field("filterType"@) == Some(JsonValue::Str("PERCENT_PRICE_BY_SIDE"@))
                &&& member_holds(bid_multiplier_up, j, "bidMultiplierUp"@)
                &&& member_holds(bid_multiplier_down, j, "bidMultiplierDown"@)
                &&& member_holds(ask_multiplier_up, j, "askMultiplierUp"@)
                &&& member_holds(ask_multiplier_down, j, "askMultiplierDown"@)
                &&& optional_holds(avg_price_mins, j, "avgPriceMins"@)
            },
            Filters::LotSize { min_qty, max_qty, step_size } => {
                &&& j.field("filterType"@) == Some(JsonValue::Str("LOT_SIZE"@))
                &&& member_holds(min_qty, j, "minQty"@)
                &&& member_holds(max_qty, j, "maxQty"@)
                &&& member_holds(step_size, j, "stepSize"@)
            },
            Filters::MinNotional { notional, min_notional, apply_to_market, avg_price_mins } => {
                &&& j.field("filterType"@) == Some(JsonValue::Str("MIN_NOTIONAL"@))
                &&& optional_holds(notional, j, "notional"@)
                &&& optional_holds(min_notional, j, "minNotional"@)
                &&& optional_holds(apply_to_market, j, "applyToMarket"@)
                &&& optional_holds(avg_price_mins, j, "avgPriceMins"@)
            },
            Filters::Notional { notional, min_notional, apply_to_market, avg_price_mins } => {
                &&& j.field("filterType"@) == Some(JsonValue::Str("NOTIONAL"@))
                &&& optional_holds(notional, j, "notional"@)
                &&& optional_holds(min_notional, j, "minNotional"@)
                &&& optional_holds(apply_to_market, j, "applyToMarket"@)
                &&& optional_holds(avg_price_mins, j, "avgPriceMins"@)
            },
            Filters::IcebergParts { limit } => {
                &&& j.field("filterType"@) == Some(JsonValue::Str("ICEBERG_PARTS"@))
                &&& optional_holds(limit, j, "limit"@)
            },
            Filters::MaxNumOrders { max_num_orders } => {
                &&& j.field("filterType"@) == Some(JsonValue::Str("MAX_NUM_ORDERS"@))
                &&& optional_holds(max_num_orders, j, "maxNumOrders"@)
            },
            Filters::MaxNumAlgoOrders { max_num_algo_orders } => {
                &&& j.field("filterType"@) == Some(JsonValue::Str("MAX_NUM_ALGO_ORDERS"@))
                &&& optional_holds(max_num_algo_orders, j, "maxNumAlgoOrders"@)
            },
            Filters::MaxNumIcebergOrders { max_num_iceberg_orders } => {
                &&& j.field("filterType"@) == Some(JsonValue::Str("MAX_NUM_ICEBERG_ORDERS"@))
                &&& member_holds(max_num_iceberg_orders, j, "maxNumIcebergOrders"@)
            },
            Filters::MaxPosition { max_position } => {
                &&& j.field("filterType"@) == Some(JsonValue::Str("MAX_POSITION"@))
                &&& member_holds(max_position, j, "maxPosition"@)
            },
            Filters::MarketLotSize { min_qty, max_qty, step_size } => {
                &&& j.field("filterType"@) == Some(JsonValue::Str("MARKET_LOT_SIZE"@))
                &&& member_holds(min_qty, j, "minQty"@)
                &&& member_holds(max_qty, j, "maxQty"@)
                &&& member_holds(step_size, j, "stepSize"@)
            },
            Filters::TrailingData {
                min_trailing_above_delta,
                max_trailing_above_delta,
                min_trailing_below_delta,
                max_trailing_below_delta,
            } => {
                &&& j.field("filterType"@) == Some(JsonValue::Str("TRAILING_DELTA"@))
                &&& optional_holds(min_trailing_above_delta, j, "minTrailingAboveDelta"@)
                &&& optional_holds(max_trailing_above_delta, j, "maxTrailingAboveDelta"@)
                &&& optional_holds(min_trailing_below_delta, j, "minTrailingBelowDelta"@)
                &&& optional_holds(max_trailing_below_delta, j, "maxTrailingBelowDelta"@)
            },
        }
    }

    fn from_json(j: &Json) -> (r: Option<Filters>) {
        if !j.is_object() {
            return None;
        }
        let tag = member::<String>(j, "filterType")?;
        if str_eq(tag.as_str(), "PRICE_FILTER") {
            let min_price = member::<String>(j, "minPrice")?;
            let max_price = member::<String>(j, "maxPrice")?;
            let tick_size = member::<String>(j, "tickSize")?;
            Some(Filters::PriceFilter { min_price, max_price, tick_size })
        } else if str_eq(tag.as_str(), "PERCENT_PRICE") {
            let multiplier_up = member::<String>(j, "multiplierUp")?;
            let multiplier_down = member::<String>(j, "multiplierDown")?;
            let avg_price_mins = optional_member::<NumberText>(j, "avgPriceMins")?;
            Some(Filters::PercentPrice { multiplier_up, multiplier_down, avg_price_mins })
        } else if str_eq(tag.as_str(), "PERCENT_PRICE_BY_SIDE") {
            let bid_multiplier_up = member::<String>(j, "bidMultiplierUp")?;
            let bid_multiplier_down = member::<String>(j, "bidMultiplierDown")?;
            let ask_multiplier_up = member::<String>(j, "askMultiplierUp")?;
            let ask_multiplier_down = member::<String>(j, "askMultiplierDown")?;
            let avg_price_mins = optional_member::<NumberText>(j, "avgPriceMins")?;
            Some(
                Filters::PercentPriceBySide {
                    bid_multiplier_up,
                    bid_multiplier_down,
                    ask_multiplier_up,
                    ask_multiplier_down,
                    avg_price_mins,
                },
            )
        } else if str_eq(tag.as_str(), "LOT_SIZE") {
            let min_qty = member::<String>(j, "minQty")?;
            let max_qty = member::<String>(j, "maxQty")?;
            let step_size = member::<String>(j, "stepSize")?;
            Some(Filters::LotSize { min_qty, max_qty, step_size })
        } else if str_eq(tag.as_str(), "MIN_NOTIONAL") {
            let notional = optional_member::<String>(j, "notional")?;
            let min_notional = optional_member::<String>(j, "minNotional")?;
            let apply_to_market = optional_member::<bool>(j, "applyToMarket")?;
            let avg_price_mins = optional_member::<NumberText>(j, "avgPriceMins")?;
            Some(Filters::MinNotional { notional, min_notional, apply_to_market, avg_price_mins })
        } else if str_eq(tag.as_str(), "NOTIONAL") {
            let notional = optional_member::<String>(j, "notional")?;
            let min_notional = optional_member::<String>(j, "minNotional")?;
            let apply_to_market = optional_member::<bool>(j, "applyToMarket")?;
            let avg_price_mins = optional_member::<NumberText>(j, "avgPriceMins")?;
            Some(Filters::Notional { notional, min_notional, apply_to_market, avg_price_mins })
        } else if str_eq(tag.as_str(), "ICEBERG_PARTS") {
            let limit = optional_member::<u16>(j, "limit")?;
            Some(Filters::IcebergParts { limit })
        } else if str_eq(tag.as_str(), "MAX_NUM_ORDERS") {
            let max_num_orders = optional_member::<u16>(j, "maxNumOrders")?;
            Some(Filters::MaxNumOrders { max_num_orders })
        } else if str_eq(tag.as_str(), "MAX_NUM_ALGO_ORDERS") {
            let max_num_algo_orders = optional_member::<u16>(j, "maxNumAlgoOrders")?;
            Some(Filters::MaxNumAlgoOrders { max_num_algo_orders })
        } else if str_eq(tag.as_str(), "MAX_NUM_ICEBERG_ORDERS") {
            let max_num_iceberg_orders = member::<u16>(j, "maxNumIcebergOrders")?;
            Some(Filters::MaxNumIcebergOrders { max_num_iceberg_orders })
        } else if str_eq(tag.as_str(), "MAX_POSITION") {
            let max_position = member::<String>(j, "maxPosition")?;
            Some(Filters::MaxPosition { max_position })
        } else if str_eq(tag.as_str(), "MARKET_LOT_SIZE") {
            let min_qty = member::<String>(j, "minQty")?;
            let max_qty = member::<String>(j, "maxQty")?;
            let step_size = member::<String>(j, "stepSize")?;
            Some(Filters::MarketLotSize { min_qty, max_qty, step_size })
        } else if str_eq(tag.as_str(), "TRAILING_DELTA") {
            let min_trailing_above_delta = optional_member::<u16>(j, "minTrailingAboveDelta")?;
            let max_trailing_above_delta = optional_member::<u16>(j, "maxTrailingAboveDelta")?;
            let min_trailing_below_delta = optional_member::<u16>(j, "minTrailingBelowDelta")?;
            let max_trailing_below_delta = optional_member::<u16>(j, "maxTrailingBelowDelta")?;
            Some(
                Filters::TrailingData {
                    min_trailing_above_delta,
                    max_trailing_above_delta,
                    min_trailing_below_delta,
                    max_trailing_below_delta,
                },
            )
        } else {
            None
        }
    }
}

/// A reply without content.
#[derive(Clone, Debug, PartialEq, Eq)]
pub struct Empty {}

impl FromJson for Empty {
    open spec fn accepts(j: JsonValue) -> bool {
        &&& j is Object
    }

    open spec fn holds(&self, j: JsonValue) -> bool {
        true
    }

    fn from_json(j: &Json) -> (r: Option<Empty>) {
        if !j.is_object() {
            return None;
        }
        Some(Empty {})
    }
}

/// The exchange's clock, in milliseconds since the epoch.
#[derive(Clone, Debug, PartialEq, Eq)]
pub struct ServerTime {
    pub server_time: u64,
}

impl FromJson for ServerTime {
    open spec fn accepts(j: JsonValue) -> bool {
        &&& j is Object
        &&& member_accepts::<u64>(j, "serverTime"@)
    }

    open spec fn holds(&self, j: JsonValue) -> bool {
        &&& member_holds(self.server_time, j, "serverTime"@)
    }

    fn from_json(j: &Json) -> (r: Option<ServerTime>) {
        if !j.is_object() {
            return None;
        }
        let server_time = member::<u64>(j, "serverTime")?;
        Some(
            ServerTime {
                server_time,
            },
        )
    }
}

/// Commission rates of one kind.
#[derive(Clone, Debug, PartialEq, Eq)]
pub struct Commission {
    pub maker: String,
    pub taker: String,
    pub buyer: String,
    pub seller: String,
}

impl FromJson for Commission {
    open spec fn accepts(j: JsonValue) -> bool {
        &&& j is Object
        &&& member_accepts::<String>(j, "maker"@)
        &&& member_accepts::<String>(j, "taker"@)
        &&& member_accepts::<String>(j, "buyer"@)
        &&& member_accepts::<String>(j, "seller"@)
    }

    open spec fn holds(&self, j: JsonValue) -> bool {
        &&& member_holds(self.maker, j, "maker"@)
        &&& member_holds(self.taker, j, "taker"@)
        &&& member_holds(self.buyer, j, "buyer"@)
        &&& member_holds(self.seller, j, "seller"@)
    }

    fn from_json(j: &Json) -> (r: Option<Commission>) {
        if !j.is_object() {
            return None;
        }
        let maker = member::<String>(j, "maker")?;
        let taker = member::<String>(j, "taker")?;
        let buyer = member::<String>(j, "buyer")?;
        let seller = member::<String>(j, "seller")?;
        Some(
            Commission {
                maker,
                taker,
                buyer,
                seller,
            },
        )
    }
}

/// The discount on commissions paid in the discount asset.
#[derive(Clone, Debug, PartialEq, Eq)]
pub struct Discount {
    pub enabled_for_account: bool,
    pub enabled_for_symbol: bool,
    pub discount_asset: String,
    pub discount: String,
}

impl FromJson for Discount {
    open spec fn accepts(j: JsonValue) -> bool {
        &&& j is Object
        &&& member_accepts::<bool>(j, "enabledForAccount"@)
        &&& member_accepts::<bool>(j, "enabledForSymbol"@)
        &&& member_accepts::<String>(j, "discountAsset"@)
        &&& member_accepts::<String>(j, "discount"@)
    }

    open spec fn holds(&self, j: JsonValue) -> bool {
        &&& member_holds(self.enabled_for_account, j, "enabledForAccount"@)
        &&& member_holds(self.enabled_for_symbol, j, "enabledForSymbol"@)
        &&& member_holds(self.discount_asset, j, "discountAsset"@)
        &&& member_holds(self.discount, j, "discount"@)
    }

    fn from_json(j: &Json) -> (r: Option<Discount>) {
        if !j.is_object() {
            return None;
        }
        let enabled_for_account = member::<bool>(j, "enabledForAccount")?;
        let enabled_for_symbol = member::<bool>(j, "enabledForSymbol")?;
        let discount_asset = member::<String>(j, "discountAsset")?;
        let discount = member::<String>(j, "discount")?;
        Some(
            Discount {
                enabled_for_account,
                enabled_for_symbol,
                discount_asset,
                discount,
            },
        )
    }
}

/// The commission rates of a symbol.
#[derive(Clone, Debug, PartialEq, Eq)]
pub struct CommissionRates {
    pub symbol: String,
    pub standard_commission: Commission,
    pub tax_commission: Commission,
    pub discount: Discount,
}

impl FromJson for CommissionRates {
    open spec fn accepts(j: JsonValue) -> bool {
        &&& j is Object
        &&& member_accepts::<String>(j, "symbol"@)
        &&& member_accepts::<Commission>(j, "standardCommission"@)
        &&& member_accepts::<Commission>(j, "taxCommission"@)
        &&& member_accepts::<Discount>(j, "discount"@)
    }

    open spec fn holds(&self, j: JsonValue) -> bool {
        &&& member_holds(self.symbol, j, "symbol"@)
        &&& member_holds(self.standard_commission, j, "standardCommission"@)
        &&& member_holds(self.tax_commission, j, "taxCommission"@)
        &&& member_holds(self.discount, j, "discount"@)
    }

    fn from_json(j: &Json) -> (r: Option<CommissionRates>) {
        if !j.is_object() {
            return None;
        }
        let symbol = member::<String>(j, "symbol")?;
        let standard_commission = member::<Commission>(j, "standardCommission")?;
        let tax_commission = member::<Commission>(j, "taxCommission")?;
        let discount = member::<Discount>(j, "discount")?;
        Some(
            CommissionRates {
                symbol,
                standard_commission,
                tax_commission,
                discount,
            },
        )
    }
}

/// The free and locked amount of one asset.
#[derive(Clone, Debug, PartialEq, Eq)]
pub struct Balance {
    pub asset: String,
    pub free: String,
    pub locked: String,
}

impl FromJson for Balance {
    open spec fn accepts(j: JsonValue) -> bool {
        &&& j is Object
        &&& member_accepts::<String>(j, "asset"@)
        &&& member_accepts::<String>(j, "free"@)
        &&& member_accepts::<String>(j, "locked"@)
    }

    open spec fn holds(&self, j: JsonValue) -> bool {
        &&& member_holds(self.asset, j, "asset"@)
        &&& member_holds(self.free, j, "free"@)
        &&& member_holds(self.locked, j, "locked"@)
    }

    fn from_json(j: &Json) -> (r: Option<Balance>) {
        if !j.is_object() {
            return None;
        }
        let asset = member::<String>(j, "asset")?;
        let free = member::<String>(j, "free")?;
        let locked = member::<String>(j, "locked")?;
        Some(
            Balance {
                asset,
                free,
                locked,
            },
        )
    }
}

/// The acknowledgement of a cancelled order.
#[derive(Clone, Debug, PartialEq, Eq)]
pub struct OrderCanceled {
    pub symbol: String,
    pub orig_client_order_id: Option<String>,
    pub order_id: Option<u64>,
    pub client_order_id: Option<String>,
}

impl FromJson for OrderCanceled {
    open spec fn accepts(j: JsonValue) -> bool {
        &&& j is Object
        &&& member_accepts::<String>(j, "symbol"@)
        &&& optional_accepts::<String>(j, "origClientOrderId"@)
        &&& optional_accepts::<u64>(j, "orderId"@)
        &&& optional_accepts::<String>(j, "clientOrderId"@)
    }

    open spec fn holds(&self, j: JsonValue) -> bool {
        &&& member_holds(self.symbol, j, "symbol"@)
        &&& optional_holds(self.orig_client_order_id, j, "origClientOrderId"@)
        &&& optional_holds(self.order_id, j, "orderId"@)
        &&& optional_holds(self.client_order_id, j, "clientOrderId"@)
    }

    fn from_json(j: &Json) -> (r: Option<OrderCanceled>) {
        if !j.is_object() {
            return None;
        }
        let symbol = member::<String>(j, "symbol")?;
        let orig_client_order_id = optional_member::<String>(j, "origClientOrderId")?;
        let order_id = optional_member::<u64>(j, "orderId")?;
        let client_order_id = optional_member::<String>(j, "clientOrderId")?;
        Some(
            OrderCanceled {
                symbol,
                orig_client_order_id,
                order_id,
                client_order_id,
            },
        )
    }
}

/// The identifier of a transfer.
#[derive(Clone, Debug, PartialEq, Eq)]
pub struct TransactionId {
    pub tran_id: u64,
}

impl FromJson for TransactionId {
    open spec fn accepts(j: JsonValue) -> bool {
        &&& j is Object
        &&& member_accepts::<u64>(j, "tranId"@)
    }

    open spec fn holds(&self, j: JsonValue) -> bool {
        &&& member_holds(self.tran_id, j, "tranId"@)
    }

    fn from_json(j: &Json) -> (r: Option<TransactionId>) {
        if !j.is_object() {
            return None;
        }
        let tran_id = member::<u64>(j, "tranId")?;
        Some(
            TransactionId {
                tran_id,
            },
        )
    }
}

/// The reply to a test order, which is accepted without content.
#[derive(Clone, Debug, PartialEq, Eq)]
pub struct TestResponse {}

impl FromJson for TestResponse {
    open spec fn accepts(j: JsonValue) -> bool {
        &&& j is Object
    }

    open spec fn holds(&self, j: JsonValue) -> bool {
        true
    }

    fn from_json(j: &Json) -> (r: Option<TestResponse>) {
        if !j.is_object() {
            return None;
        }
        Some(TestResponse {})
    }
}

/// A limit on requests or orders within an interval.
#[derive(Clone, Debug, PartialEq, Eq)]
pub struct RateLimit {
    pub rate_limit_type: String,
    pub interval: String,
    pub interval_num: u16,
    pub limit: u64,
}

impl FromJson for RateLimit {
    open spec fn accepts(j: JsonValue) -> bool {
        &&& j is Object
        &&& member_accepts::<String>(j, "rateLimitType"@)
        &&& member_accepts::<String>(j, "interval"@)
        &&& member_accepts::<u16>(j, "intervalNum"@)
        &&& member_accepts::<u64>(j, "limit"@)
    }

    open spec fn holds(&self, j: JsonValue) -> bool {
        &&& member_holds(self.rate_limit_type, j, "rateLimitType"@)
        &&& member_holds(self.interval, j, "interval"@)
        &&& member_holds(self.interval_num, j, "intervalNum"@)
        &&& member_holds(self.limit, j, "limit"@)
    }

    fn from_json(j: &Json) -> (r: Option<RateLimit>) {
        if !j.is_object() {
            return None;
        }
        let rate_limit_type = member::<String>(j, "rateLimitType")?;
        let interval = member::<String>(j, "interval")?;
        let interval_num = member::<u16>(j, "intervalNum")?;
        let limit = member::<u64>(j, "limit")?;
        Some(
            RateLimit {
                rate_limit_type,
                interval,
                interval_num,
                limit,
            },
        )
    }
}

/// Where to deposit a coin.
#[derive(Clone, Debug, PartialEq, Eq)]
pub struct DepositAddress {
    pub address: String,
    pub coin: String,
    pub tag: String,
    pub url: String,
}

impl FromJson for DepositAddress {
    open spec fn accepts(j: JsonValue) -> bool {
        &&& j is Object
        &&& member_accepts::<String>(j, "address"@)
        &&& member_accepts::<String>(j, "coin"@)
        &&& member_accepts::<String>(j, "tag"@)
        &&& member_accepts::<String>(j, "url"@)
    }

    open spec fn holds(&self, j: JsonValue) -> bool {
        &&& member_holds(self.address, j, "address"@)
        &&& member_holds(self.coin, j, "coin"@)
        &&& member_holds(self.tag, j, "tag"@)
        &&& member_holds(self.url, j, "url"@)
    }

    fn from_json(j: &Json) -> (r: Option<DepositAddress>) {
        if !j.is_object() {
            return None;
        }
        let address = member::<String>(j, "address")?;
        let coin = member::<String>(j, "coin")?;
        let tag = member::<String>(j, "tag")?;
        let url = member::<String>(j, "url")?;
        Some(
            DepositAddress {
                address,
                coin,
                tag,
                url,
            },
        )
    }
}

/// A balance within an account update.
#[derive(Clone, Debug, PartialEq, Eq)]
pub struct EventBalance {
    pub asset: String,
    pub wallet_balance: String,
    pub cross_wallet_balance: String,
    pub balance_change: String,
}

impl FromJson for EventBalance {
    open spec fn accepts(j: JsonValue) -> bool {
        &&& j is Object
        &&& member_accepts::<String>(j, "a"@)
        &&& member_accepts::<String>(j, "wb"@)
        &&& member_accepts::<String>(j, "cw"@)
        &&& member_accepts::<String>(j, "bc"@)
    }

    open spec fn holds(&self, j: JsonValue) -> bool {
        &&& member_holds(self.asset, j, "a"@)
        &&& member_holds(self.wallet_balance, j, "wb"@)
        &&& member_holds(self.cross_wallet_balance, j, "cw"@)
        &&& member_holds(self.balance_change, j, "bc"@)
    }

    fn from_json(j: &Json) -> (r: Option<EventBalance>) {
        if !j.is_object() {
            return None;
        }
        let asset = member::<String>(j, "a")?;
        let wallet_balance = member::<String>(j, "wb")?;
        let cross_wallet_balance = member::<String>(j, "cw")?;
        let balance_change = member::<String>(j, "bc")?;
        Some(
            EventBalance {
                asset,
                wallet_balance,
                cross_wallet_balance,
                balance_change,
            },
        )
    }
}

/// A position within an account update.
#[derive(Clone, Debug, PartialEq, Eq)]
pub struct EventPosition {
    pub symbol: String,
    pub position_amount: String,
    pub entry_price: String,
    pub accumulated_realized: String,
    pub unrealized_pnl: String,
    pub margin_type: String,
    pub isolated_wallet: String,
    pub position_side: String,
}

impl FromJson for EventPosition {
    open spec fn accepts(j: JsonValue) -> bool {
        &&& j is Object
        &&& member_accepts::<String>(j, "s"@)
        &&& member_accepts::<String>(j, "pa"@)
        &&& member_accepts::<String>(j, "ep"@)
        &&& member_accepts::<String>(j, "cr"@)
        &&& member_accepts::<String>(j, "up"@)
        &&& member_accepts::<String>(j, "mt"@)
        &&& member_accepts::<String>(j, "iw"@)
        &&& member_accepts::<String>(j, "ps"@)
    }

    open spec fn holds(&self, j: JsonValue) -> bool {
        &&& member_holds(self.symbol, j, "s"@)
        &&& member_holds(self.position_amount, j, "pa"@)
        &&& member_holds(self.entry_price, j, "ep"@)
        &&& member_holds(self.accumulated_realized, j, "cr"@)
        &&& member_holds(self.unrealized_pnl, j, "up"@)
        &&& member_holds(self.margin_type, j, "mt"@)
        &&& member_holds(self.isolated_wallet, j, "iw"@)
        &&& member_holds(self.position_side, j, "ps"@)
    }

    fn from_json(j: &Json) -> (r: Option<EventPosition>) {
        if !j.is_object() {
            return None;
        }
        let symbol = member::<String>(j, "s")?;
        let position_amount = member::<String>(j, "pa")?;
        let entry_price = member::<String>(j, "ep")?;
        let accumulated_realized = member::<String>(j, "cr")?;
        let unrealized_pnl = member::<String>(j, "up")?;
        let margin_type = member::<String>(j, "mt")?;
        let isolated_wallet = member::<String>(j, "iw")?;
        let position_side = member::<String>(j, "ps")?;
        Some(
            EventPosition {
                symbol,
                position_amount,
                entry_price,
                accumulated_realized,
                unrealized_pnl,
                margin_type,
                isolated_wallet,
                position_side,
            },
        )
    }
}

/// The balances and positions that an account update reports.
#[derive(Clone, Debug, PartialEq, Eq)]
pub struct AccountUpdateDataEvent {
    pub reason: String,
    pub balances: Vec<EventBalance>,
    pub positions: Vec<EventPosition>,
}

impl FromJson for AccountUpdateDataEvent {
    open spec fn accepts(j: JsonValue) -> bool {
        &&& j is Object
        &&& member_accepts::<String>(j, "m"@)
        &&& member_accepts::<Vec<EventBalance>>(j, "B"@)
        &&& member_accepts::<Vec<EventPosition>>(j, "P"@)
    }

    open spec fn holds(&self, j: JsonValue) -> bool {
        &&& member_holds(self.reason, j, "m"@)
        &&& member_holds(self.balances, j, "B"@)
        &&& member_holds(self.positions, j, "P"@)
    }

    fn from_json(j: &Json) -> (r: Option<AccountUpdateDataEvent>) {
        if !j.is_object() {
            return None;
        }
        let reason = member::<String>(j, "m")?;
        let balances = member::<Vec<EventBalance>>(j, "B")?;
        let positions = member::<Vec<EventPosition>>(j, "P")?;
        Some(
            AccountUpdateDataEvent {
                reason,
                balances,
                positions,
            },
        )
    }
}

/// Balances or positions of the account have changed.
#[derive(Clone, Debug, PartialEq, Eq)]
pub struct AccountUpdateEvent {
    pub event_type: String,
    pub event_time: u64,
    pub data: AccountUpdateDataEvent,
}

impl FromJson for AccountUpdateEvent {
    open spec fn accepts(j: JsonValue) -> bool {
        &&& j is Object
        &&& member_accepts::<String>(j, "e"@)
        &&& member_accepts::<u64>(j, "E"@)
        &&& member_accepts::<AccountUpdateDataEvent>(j, "a"@)
    }

    open spec fn holds(&self, j: JsonValue) -> bool {
        &&& member_holds(self.event_type, j, "e"@)
        &&& member_holds(self.event_time, j, "E"@)
        &&& member_holds(self.data, j, "a"@)
    }

    fn from_json(j: &Json) -> (r: Option<AccountUpdateEvent>) {
        if !j.is_object() {
            return None;
        }
        let event_type = member::<String>(j, "e")?;
        let event_time = member::<u64>(j, "E")?;
        let data = member::<AccountUpdateDataEvent>(j, "a")?;
        Some(
            AccountUpdateEvent {
                event_type,
                event_time,
                data,
            },
        )
    }
}

/// Trades of one taker order, aggregated.
#[derive(Clone, Debug, PartialEq, Eq)]
pub struct AggrTradesEvent {
    pub event_type: String,
    pub event_time: u64,
    pub symbol: String,
    pub aggregated_trade_id: u64,
    pub price: Decimal,
    pub qty: Decimal,
    pub first_break_trade_id: u64,
    pub last_break_trade_id: u64,
    pub trade_order_time: u64,
    pub is_buyer_maker: bool,
    /// Never read from a document.
    pub m_ignore: bool,
}

impl FromJson for AggrTradesEvent {
    open spec fn accepts(j: JsonValue) -> bool {
        &&& j is Object
        &&& member_accepts::<String>(j, "e"@)
        &&& member_accepts::<u64>(j, "E"@)
        &&& member_accepts::<String>(j, "s"@)
        &&& member_accepts::<u64>(j, "a"@)
        &&& member_accepts::<Decimal>(j, "p"@)
        &&& member_accepts::<Decimal>(j, "q"@)
        &&& member_accepts::<u64>(j, "f"@)
        &&& member_accepts::<u64>(j, "l"@)
        &&& member_accepts::<u64>(j, "T"@)
        &&& member_accepts::<bool>(j, "m"@)
    }

    open spec fn holds(&self, j: JsonValue) -> bool {
        &&& member_holds(self.event_type, j, "e"@)
        &&& member_holds(self.event_time, j, "E"@)
        &&& member_holds(self.symbol, j, "s"@)
        &&& member_holds(self.aggregated_trade_id, j, "a"@)
        &&& member_holds(self.price, j, "p"@)
        &&& member_holds(self.qty, j, "q"@)
        &&& member_holds(self.first_break_trade_id, j, "f"@)
        &&& member_holds(self.last_break_trade_id, j, "l"@)
        &&& member_holds(self.trade_order_time, j, "T"@)
        &&& member_holds(self.is_buyer_maker, j, "m"@)
        &&& !self.m_ignore
    }

    fn from_json(j: &Json) -> (r: Option<AggrTradesEvent>) {
        if !j.is_object() {
            return None;
        }
        let event_type = member::<String>(j, "e")?;
        let event_time = member::<u64>(j, "E")?;
        let symbol = member::<String>(j, "s")?;
        let aggregated_trade_id = member::<u64>(j, "a")?;
        let price = member::<Decimal>(j, "p")?;
        let qty = member::<Decimal>(j, "q")?;
        let first_break_trade_id = member::<u64>(j, "f")?;
        let last_break_trade_id = member::<u64>(j, "l")?;
        let trade_order_time = member::<u64>(j, "T")?;
        let is_buyer_maker = member::<bool>(j, "m")?;
        Some(
            AggrTradesEvent {
                event_type,
                event_time,
                symbol,
                aggregated_trade_id,
                price,
                qty,
                first_break_trade_id,
                last_break_trade_id,
                trade_order_time,
                is_buyer_maker,
                m_ignore: false,
            },
        )
    }
}

/// A balance has changed by a deposit, withdrawal or transfer.
#[derive(Clone, Debug, PartialEq, Eq)]
pub struct BalanceUpdateEvent {
    pub balance: Vec<EventBalance>,
    pub event_type: String,
    pub event_time: u64,
    pub last_account_update_time: u64,
}

impl FromJson for BalanceUpdateEvent {
    open spec fn accepts(j: JsonValue) -> bool {
        &&& j is Object
        &&& member_accepts::<Vec<EventBalance>>(j, "B"@)
        &&& member_accepts::<String>(j, "e"@)
        &&& member_accepts::<u64>(j, "E"@)
        &&& member_accepts::<u64>(j, "u"@)
    }

    open spec fn holds(&self, j: JsonValue) -> bool {
        &&& member_holds(self.balance, j, "B"@)
        &&& member_holds(self.event_type, j, "e"@)
        &&& member_holds(self.event_time, j, "E"@)
        &&& member_holds(self.last_account_update_time, j, "u"@)
    }

    fn from_json(j: &Json) -> (r: Option<BalanceUpdateEvent>) {
        if !j.is_object() {
            return None;
        }
        let balance = member::<Vec<EventBalance>>(j, "B")?;
        let event_type = member::<String>(j, "e")?;
        let event_time = member::<u64>(j, "E")?;
        let last_account_update_time = member::<u64>(j, "u")?;
        Some(
            BalanceUpdateEvent {
                balance,
                event_type,
                event_time,
                last_account_update_time,
            },
        )
    }
}

/// The best bid and ask of a symbol have changed.
#[derive(Clone, Debug, PartialEq, Eq)]
pub struct BookTickerEvent {
    pub update_id: u64,
    pub symbol: String,
    pub best_bid: String,
    pub best_bid_qty: String,
    pub best_ask: String,
    pub best_ask_qty: String,
}

impl FromJson for BookTickerEvent {
    open spec fn accepts(j: JsonValue) -> bool {
        &&& j is Object
        &&& member_accepts::<u64>(j, "u"@)
        &&& member_accepts::<String>(j, "s"@)
        &&& member_accepts::<String>(j, "b"@)
        &&& member_accepts::<String>(j, "B"@)
        &&& member_accepts::<String>(j, "a"@)
        &&& member_accepts::<String>(j, "A"@)
    }

    open spec fn holds(&self, j: JsonValue) -> bool {
        &&& member_holds(self.update_id, j, "u"@)
        &&& member_holds(self.symbol, j, "s"@)
        &&& member_holds(self.best_bid, j, "b"@)
        &&& member_holds(self.best_bid_qty, j, "B"@)
        &&& member_holds(self.best_ask, j, "a"@)
        &&& member_holds(self.best_ask_qty, j, "A"@)
    }

    fn from_json(j: &Json) -> (r: Option<BookTickerEvent>) {
        if !j.is_object() {
            return None;
        }
        let update_id = member::<u64>(j, "u")?;
        let symbol = member::<String>(j, "s")?;
        let best_bid = member::<String>(j, "b")?;
        let best_bid_qty = member::<String>(j, "B")?;
        let best_ask = member::<String>(j, "a")?;
        let best_ask_qty = member::<String>(j, "A")?;
        Some(
            BookTickerEvent {
                update_id,
                symbol,
                best_bid,
                best_bid_qty,
                best_ask,
                best_ask_qty,
            },
        )
    }
}

/// Statistics of a symbol over the last 24 hours.
#[derive(Clone, Debug, PartialEq, Eq)]
pub struct DayTickerEvent {
    pub event_type: String,
    pub event_time: u64,
    pub symbol: String,
    pub price_change: String,
    pub price_change_percent: String,
    pub average_price: String,
    pub prev_close: String,
    pub current_close: String,
    pub current_close_qty: String,
    pub best_bid: String,
    pub best_bid_qty: String,
    pub best_ask: String,
    pub best_ask_qty: String,
    pub open: String,
    pub high: String,
    pub low: String,
    pub volume: String,
    pub quote_volume: String,
    pub open_time: u64,
    pub close_time: u64,
    pub first_trade_id: i64,
    pub last_trade_id: i64,
    pub num_trades: u64,
}

impl FromJson for DayTickerEvent {
    open spec fn accepts(j: JsonValue) -> bool {
        &&& j is Object
        &&& member_accepts::<String>(j, "e"@)
        &&& member_accepts::<u64>(j, "E"@)
        &&& member_accepts::<String>(j, "s"@)
        &&& member_accepts::<String>(j, "p"@)
        &&& member_accepts::<String>(j, "P"@)
        &&& member_accepts::<String>(j, "w"@)
        &&& member_accepts::<String>(j, "x"@)
        &&& member_accepts::<String>(j, "c"@)
        &&& member_accepts::<String>(j, "Q"@)
        &&& member_accepts::<String>(j, "b"@)
        &&& member_accepts::<String>(j, "B"@)
        &&& member_accepts::<String>(j, "a"@)
        &&& member_accepts::<String>(j, "A"@)
        &&& member_accepts::<String>(j, "o"@)
        &&& member_accepts::<String>(j, "h"@)
        &&& member_accepts::<String>(j, "l"@)
        &&& member_accepts::<String>(j, "v"@)
        &&& member_accepts::<String>(j, "q"@)
        &&& member_accepts::<u64>(j, "O"@)
        &&& member_accepts::<u64>(j, "C"@)
        &&& member_accepts::<i64>(j, "F"@)
        &&& member_accepts::<i64>(j, "L"@)
        &&& member_accepts::<u64>(j, "n"@)
    }

    open spec fn holds(&self, j: JsonValue) -> bool {
        &&& member_holds(self.event_type, j, "e"@)
        &&& member_holds(self.event_time, j, "E"@)
        &&& member_holds(self.symbol, j, "s"@)
        &&& member_holds(self.price_change, j, "p"@)
        &&& member_holds(self.price_change_percent, j, "P"@)
        &&& member_holds(self.average_price, j, "w"@)
        &&& member_holds(self.prev_close, j, "x"@)
        &&& member_holds(self.current_close, j, "c"@)
        &&& member_holds(self.current_close_qty, j, "Q"@)
        &&& member_holds(self.best_bid, j, "b"@)
        &&& member_holds(self.best_bid_qty, j, "B"@)
        &&& member_holds(self.best_ask, j, "a"@)
        &&& member_holds(self.best_ask_qty, j, "A"@)
        &&& member_holds(self.open, j, "o"@)
        &&& member_holds(self.high, j, "h"@)
        &&& member_holds(self.low, j, "l"@)
        &&& member_holds(self.volume, j, "v"@)
        &&& member_holds(self.quote_volume, j, "q"@)
        &&& member_holds(self.open_time, j, "O"@)
        &&& member_holds(self.close_time, j, "C"@)
        &&& member_holds(self.first_trade_id, j, "F"@)
        &&& member_holds(self.last_trade_id, j, "L"@)
        &&& member_holds(self.num_trades, j, "n"@)
    }

    fn from_json(j: &Json) -> (r: Option<DayTickerEvent>) {
        if !j.is_object() {
            return None;
        }
        let event_type = member::<String>(j, "e")?;
        let event_time = member::<u64>(j, "E")?;
        let symbol = member::<String>(j, "s")?;
        let price_change = member::<String>(j, "p")?;
        let price_change_percent = member::<String>(j, "P")?;
        let average_price = member::<String>(j, "w")?;
        let prev_close = member::<String>(j, "x")?;
        let current_close = member::<String>(j, "c")?;
        let current_close_qty = member::<String>(j, "Q")?;
        let best_bid = member::<String>(j, "b")?;
        let best_bid_qty = member::<String>(j, "B")?;
        let best_ask = member::<String>(j, "a")?;
        let best_ask_qty = member::<String>(j, "A")?;
        let open = member::<String>(j, "o")?;
        let high = member::<String>(j, "h")?;
        let low = member::<String>(j, "l")?;
        let volume = member::<String>(j, "v")?;
        let quote_volume = member::<String>(j, "q")?;
        let open_time = member::<u64>(j, "O")?;
        let close_time = member::<u64>(j, "C")?;
        let first_trade_id = member::<i64>(j, "F")?;
        let last_trade_id = member::<i64>(j, "L")?;
        let num_trades = member::<u64>(j, "n")?;
        Some(
            DayTickerEvent {
                event_type,
                event_time,
                symbol,
                price_change,
                price_change_percent,
                average_price,
                prev_close,
                current_close,
                current_close_qty,
                best_bid,
                best_bid_qty,
                best_ask,
                best_ask_qty,
                open,
                high,
                low,
                volume,
                quote_volume,
                open_time,
                close_time,
                first_trade_id,
                last_trade_id,
                num_trades,
            },
        )
    }
}

/// Changes to the order book of a symbol.
#[derive(Clone, Debug, PartialEq, Eq)]
pub struct DepthOrderBookEvent {
    pub event_type: String,
    pub event_time: u64,
    pub symbol: String,
    pub first_update_id: u64,
    pub final_update_id: u64,
    pub previous_final_update_id: Option<u64>,
    pub bids: Vec<Bids>,
    pub asks: Vec<Asks>,
}

impl FromJson for DepthOrderBookEvent {
    open spec fn accepts(j: JsonValue) -> bool {
        &&& j is Object
        &&& member_accepts::<String>(j, "e"@)
        &&& member_accepts::<u64>(j, "E"@)
        &&& member_accepts::<String>(j, "s"@)
        &&& member_accepts::<u64>(j, "U"@)
        &&& member_accepts::<u64>(j, "u"@)
        &&& optional_accepts::<u64>(j, "pu"@)
        &&& member_accepts::<Vec<Bids>>(j, "b"@)
        &&& member_accepts::<Vec<Asks>>(j, "a"@)
    }

    open spec fn holds(&self, j: JsonValue) -> bool {
        &&& member_holds(self.event_type, j, "e"@)
        &&& member_holds(self.event_time, j, "E"@)
        &&& member_holds(self.symbol, j, "s"@)
        &&& member_holds(self.first_update_id, j, "U"@)
        &&& member_holds(self.final_update_id, j, "u"@)
        &&& optional_holds(self.previous_final_update_id, j, "pu"@)
        &&& member_holds(self.bids, j, "b"@)
        &&& member_holds(self.asks, j, "a"@)
    }

    fn from_json(j: &Json) -> (r: Option<DepthOrderBookEvent>) {
        if !j.is_object() {
            return None;
        }
        let event_type = member::<String>(j, "e")?;
        let event_time = member::<u64>(j, "E")?;
        let symbol = member::<String>(j, "s")?;
        let first_update_id = member::<u64>(j, "U")?;
        let final_update_id = member::<u64>(j, "u")?;
        let previous_final_update_id = optional_member::<u64>(j, "pu")?;
        let bids = member::<Vec<Bids>>(j, "b")?;
        let asks = member::<Vec<Asks>>(j, "a")?;
        Some(
            DepthOrderBookEvent {
                event_type,
                event_time,
                symbol,
                first_update_id,
                final_update_id,
                previous_final_update_id,
                bids,
                asks,
            },
        )
    }
}

/// A candlestick of an index price.
#[derive(Clone, Debug, PartialEq, Eq)]
pub struct IndexKline {
    pub start_time: i64,
    pub end_time: i64,
    /// Never read from a document.
    pub ignore_me: String,
    pub interval: String,
    pub first_trade_id: i64,
    pub last_trade_id: i64,
    pub open: String,
    pub close: String,
    pub high: String,
    pub low: String,
    pub volume: String,
    pub number_of_trades: i64,
    pub is_final_bar: bool,
    /// Never read from a document.
    pub ignore_me2: String,
    /// Never read from a document.
    pub ignore_me3: String,
    /// Never read from a document.
    pub ignore_me4: String,
    /// Never read from a document.
    pub ignore_me5: String,
}

impl FromJson for IndexKline {
    open spec fn accepts(j: JsonValue) -> bool {
        &&& j is Object
        &&& member_accepts::<i64>(j, "t"@)
        &&& member_accepts::<i64>(j, "T"@)
        &&& member_accepts::<String>(j, "i"@)
        &&& member_accepts::<i64>(j, "f"@)
        &&& member_accepts::<i64>(j, "L"@)
        &&& member_accepts::<String>(j, "o"@)
        &&& member_accepts::<String>(j, "c"@)
        &&& member_accepts::<String>(j, "h"@)
        &&& member_accepts::<String>(j, "l"@)
        &&& member_accepts::<String>(j, "v"@)
        &&& member_accepts::<i64>(j, "n"@)
        &&& member_accepts::<bool>(j, "x"@)
    }

    open spec fn holds(&self, j: JsonValue) -> bool {
        &&& member_holds(self.start_time, j, "t"@)
        &&& member_holds(self.end_time, j, "T"@)
        &&& self.ignore_me@ == Seq::<char>::empty()
        &&& member_holds(self.interval, j, "i"@)
        &&& member_holds(self.first_trade_id, j, "f"@)
        &&& member_holds(self.last_trade_id, j, "L"@)
        &&& member_holds(self.open, j, "o"@)
        &&& member_holds(self.close, j, "c"@)
        &&& member_holds(self.high, j, "h"@)
        &&& member_holds(self.low, j, "l"@)
        &&& member_holds(self.volume, j, "v"@)
        &&& member_holds(self.number_of_trades, j, "n"@)
        &&& member_holds(self.is_final_bar, j, "x"@)
        &&& self.ignore_me2@ == Seq::<char>::empty()
        &&& self.ignore_me3@ == Seq::<char>::empty()
        &&& self.ignore_me4@ == Seq::<char>::empty()
        &&& self.ignore_me5@ == Seq::<char>::empty()
    }

    fn from_json(j: &Json) -> (r: Option<IndexKline>) {
        if !j.is_object() {
            return None;
        }
        let start_time = member::<i64>(j, "t")?;
        let end_time = member::<i64>(j, "T")?;
        let interval = member::<String>(j, "i")?;
        let first_trade_id = member::<i64>(j, "f")?;
        let last_trade_id = member::<i64>(j, "L")?;
        let open = member::<String>(j, "o")?;
        let close = member::<String>(j, "c")?;
        let high = member::<String>(j, "h")?;
        let low = member::<String>(j, "l")?;
        let volume = member::<String>(j, "v")?;
        let number_of_trades = member::<i64>(j, "n")?;
        let is_final_bar = member::<bool>(j, "x")?;
        Some(
            IndexKline {
                start_time,
                end_time,
                ignore_me: String::new(),
                interval,
                first_trade_id,
                last_trade_id,
                open,
                close,
                high,
                low,
                volume,
                number_of_trades,
                is_final_bar,
                ignore_me2: String::new(),
                ignore_me3: String::new(),
                ignore_me4: String::new(),
                ignore_me5: String::new(),
            },
        )
    }
}

/// A candlestick of a symbol.
#[derive(Clone, Debug, PartialEq, Eq)]
pub struct Kline {
    pub open_time: i64,
    pub close_time: i64,
    pub symbol: String,
    pub interval: String,
    pub first_trade_id: i64,
    pub last_trade_id: i64,
    pub open: String,
    pub close: String,
    pub high: String,
    pub low: String,
    pub volume: String,
    pub number_of_trades: i64,
    pub is_final_bar: bool,
    pub quote_asset_volume: String,
    pub taker_buy_base_asset_volume: String,
    pub taker_buy_quote_asset_volume: String,
    /// Never read from a document.
    pub ignore_me: String,
}

impl FromJson for Kline {
    open spec fn accepts(j: JsonValue) -> bool {
        &&& j is Object
        &&& member_accepts::<i64>(j, "t"@)
        &&& member_accepts::<i64>(j, "T"@)
        &&& member_accepts::<String>(j, "s"@)
        &&& member_accepts::<String>(j, "i"@)
        &&& member_accepts::<i64>(j, "f"@)
        &&& member_accepts::<i64>(j, "L"@)
        &&& member_accepts::<String>(j, "o"@)
        &&& member_accepts::<String>(j, "c"@)
        &&& member_accepts::<String>(j, "h"@)
        &&& member_accepts::<String>(j, "l"@)
        &&& member_accepts::<String>(j, "v"@)
        &&& member_accepts::<i64>(j, "n"@)
        &&& member_accepts::<bool>(j, "x"@)
        &&& member_accepts::<String>(j, "q"@)
        &&& member_accepts::<String>(j, "V"@)
        &&& member_accepts::<String>(j, "Q"@)
    }

    open spec fn holds(&self, j: JsonValue) -> bool {
        &&& member_holds(self.open_time, j, "t"@)
        &&& member_holds(self.close_time, j, "T"@)
        &&& member_holds(self.symbol, j, "s"@)
        &&& member_holds(self.interval, j, "i"@)
        &&& member_holds(self.first_trade_id, j, "f"@)
        &&& member_holds(self.last_trade_id, j, "L"@)
        &&& member_holds(self.open, j, "o"@)
        &&& member_holds(self.close, j, "c"@)
        &&& member_holds(self.high, j, "h"@)
        &&& member_holds(self.low, j, "l"@)
        &&& member_holds(self.volume, j, "v"@)
        &&& member_holds(self.number_of_trades, j, "n"@)
        &&& member_holds(self.is_final_bar, j, "x"@)
        &&& member_holds(self.quote_asset_volume, j, "q"@)
        &&& member_holds(self.taker_buy_base_asset_volume, j, "V"@)
        &&& member_holds(self.taker_buy_quote_asset_volume, j, "Q"@)
        &&& self.ignore_me@ == Seq::<char>::empty()
    }

    fn from_json(j: &Json) -> (r: Option<Kline>) {
        if !j.is_object() {
            return None;
        }
        let open_time = member::<i64>(j, "t")?;
        let close_time = member::<i64>(j, "T")?;
        let symbol = member::<String>(j, "s")?;
        let interval = member::<String>(j, "i")?;
        let first_trade_id = member::<i64>(j, "f")?;
        let last_trade_id = member::<i64>(j, "L")?;
        let open = member::<String>(j, "o")?;
        let close = member::<String>(j, "c")?;
        let high = member::<String>(j, "h")?;
        let low = member::<String>(j, "l")?;
        let volume = member::<String>(j, "v")?;
        let number_of_trades = member::<i64>(j, "n")?;
        let is_final_bar = member::<bool>(j, "x")?;
        let quote_asset_volume = member::<String>(j, "q")?;
        let taker_buy_base_asset_volume = member::<String>(j, "V")?;
        let taker_buy_quote_asset_volume = member::<String>(j, "Q")?;
        Some(
            Kline {
                open_time,
                close_time,
                symbol,
                interval,
                first_trade_id,
                last_trade_id,
                open,
                close,
                high,
                low,
                volume,
                number_of_trades,
                is_final_bar,
                quote_asset_volume,
                taker_buy_base_asset_volume,
                taker_buy_quote_asset_volume,
                ignore_me: String::new(),
            },
        )
    }
}

/// The current candlestick of a symbol has changed.
#[derive(Clone, Debug, PartialEq, Eq)]
pub struct KlineEvent {
    pub event_type: String,
    pub event_time: u64,
    pub symbol: String,
    pub kline: Kline,
}

impl FromJson for KlineEvent {
    open spec fn accepts(j: JsonValue) -> bool {
        &&& j is Object
        &&& member_accepts::<String>(j, "e"@)
        &&& member_accepts::<u64>(j, "E"@)
        &&& member_accepts::<String>(j, "s"@)
        &&& member_accepts::<Kline>(j, "k"@)
    }

    open spec fn holds(&self, j: JsonValue) -> bool {
        &&& member_holds(self.event_type, j, "e"@)
        &&& member_holds(self.event_time, j, "E"@)
        &&& member_holds(self.symbol, j, "s"@)
        &&& member_holds(self.kline, j, "k"@)
    }

    fn from_json(j: &Json) -> (r: Option<KlineEvent>) {
        if !j.is_object() {
            return None;
        }
        let event_type = member::<String>(j, "e")?;
        let event_time = member::<u64>(j, "E")?;
        let symbol = member::<String>(j, "s")?;
        let kline = member::<Kline>(j, "k")?;
        Some(
            KlineEvent {
                event_type,
                event_time,
                symbol,
                kline,
            },
        )
    }
}

/// A candlestick of a continuous contract.
#[derive(Clone, Debug, PartialEq, Eq)]
pub struct ContinuousKline {
    pub start_time: i64,
    pub end_time: i64,
    pub interval: String,
    pub first_trade_id: i64,
    pub last_trade_id: i64,
    pub open: String,
    pub close: String,
    pub high: String,
    pub low: String,
    pub volume: String,
    pub number_of_trades: i64,
    pub is_final_bar: bool,
    pub quote_volume: String,
    pub active_buy_volume: String,
    pub active_volume_buy_quote: String,
    /// Never read from a document.
    pub ignore_me: String,
}

impl FromJson for ContinuousKline {
    open spec fn accepts(j: JsonValue) -> bool {
        &&& j is Object
        &&& member_accepts::<i64>(j, "t"@)
        &&& member_accepts::<i64>(j, "T"@)
        &&& member_accepts::<String>(j, "i"@)
        &&& member_accepts::<i64>(j, "f"@)
        &&& member_accepts::<i64>(j, "L"@)
        &&& member_accepts::<String>(j, "o"@)
        &&& member_accepts::<String>(j, "c"@)
        &&& member_accepts::<String>(j, "h"@)
        &&& member_accepts::<String>(j, "l"@)
        &&& member_accepts::<String>(j, "v"@)
        &&& member_accepts::<i64>(j, "n"@)
        &&& member_accepts::<bool>(j, "x"@)
        &&& member_accepts::<String>(j, "q"@)
        &&& member_accepts::<String>(j, "V"@)
        &&& member_accepts::<String>(j, "Q"@)
    }

    open spec fn holds(&self, j: JsonValue) -> bool {
        &&& member_holds(self.start_time, j, "t"@)
        &&& member_holds(self.end_time, j, "T"@)
        &&& member_holds(self.interval, j, "i"@)
        &&& member_holds(self.first_trade_id, j, "f"@)
        &&& member_holds(self.last_trade_id, j, "L"@)
        &&& member_holds(self.open, j, "o"@)
        &&& member_holds(self.close, j, "c"@)
        &&& member_holds(self.high, j, "h"@)
        &&& member_holds(self.low, j, "l"@)
        &&& member_holds(self.volume, j, "v"@)
        &&& member_holds(self.number_of_trades, j, "n"@)
        &&& member_holds(self.is_final_bar, j, "x"@)
        &&& member_holds(self.quote_volume, j, "q"@)
        &&& member_holds(self.active_buy_volume, j, "V"@)
        &&& member_holds(self.active_volume_buy_quote, j, "Q"@)
        &&& self.ignore_me@ == Seq::<char>::empty()
    }

    fn from_json(j: &Json) -> (r: Option<ContinuousKline>) {
        if !j.is_object() {
            return None;
        }
        let start_time = member::<i64>(j, "t")?;
        let end_time = member::<i64>(j, "T")?;
        let interval = member::<String>(j, "i")?;
        let first_trade_id = member::<i64>(j, "f")?;
        let last_trade_id = member::<i64>(j, "L")?;
        let open = member::<String>(j, "o")?;
        let close = member::<String>(j, "c")?;
        let high = member::<String>(j, "h")?;
        let low = member::<String>(j, "l")?;
        let volume = member::<String>(j, "v")?;
        let number_of_trades = member::<i64>(j, "n")?;
        let is_final_bar = member::<bool>(j, "x")?;
        let quote_volume = member::<String>(j, "q")?;
        let active_buy_volume = member::<String>(j, "V")?;
        let active_volume_buy_quote = member::<String>(j, "Q")?;
        Some(
            ContinuousKline {
                start_time,
                end_time,
                interval,
                first_trade_id,
                last_trade_id,
                open,
                close,
                high,
                low,
                volume,
                number_of_trades,
                is_final_bar,
                quote_volume,
                active_buy_volume,
                active_volume_buy_quote,
                ignore_me: String::new(),
            },
        )
    }
}

/// The current candlestick of a continuous contract has changed.
#[derive(Clone, Debug, PartialEq, Eq)]
pub struct ContinuousKlineEvent {
    pub event_type: String,
    pub event_time: u64,
    pub pair: String,
    pub contract_type: String,
    pub kline: ContinuousKline,
}

impl FromJson for ContinuousKlineEvent {
    open spec fn accepts(j: JsonValue) -> bool {
        &&& j is Object
        &&& member_accepts::<String>(j, "e"@)
        &&& member_accepts::<u64>(j, "E"@)
        &&& member_accepts::<String>(j, "ps"@)
        &&& member_accepts::<String>(j, "ct"@)
        &&& member_accepts::<ContinuousKline>(j, "k"@)
    }

    open spec fn holds(&self, j: JsonValue) -> bool {
        &&& member_holds(self.event_type, j, "e"@)
        &&& member_holds(self.event_time, j, "E"@)
        &&& member_holds(self.pair, j, "ps"@)
        &&& member_holds(self.contract_type, j, "ct"@)
        &&& member_holds(self.kline, j, "k"@)
    }

    fn from_json(j: &Json) -> (r: Option<ContinuousKlineEvent>) {
        if !j.is_object() {
            return None;
        }
        let event_type = member::<String>(j, "e")?;
        let event_time = member::<u64>(j, "E")?;
        let pair = member::<String>(j, "ps")?;
        let contract_type = member::<String>(j, "ct")?;
        let kline = member::<ContinuousKline>(j, "k")?;
        Some(
            ContinuousKlineEvent {
                event_type,
                event_time,
                pair,
                contract_type,
                kline,
            },
        )
    }
}

/// The current candlestick of an index price has changed.
#[derive(Clone, Debug, PartialEq, Eq)]
pub struct IndexKlineEvent {
    pub event_type: String,
    pub event_time: u64,
    pub pair: String,
    pub kline: IndexKline,
}

impl FromJson for IndexKlineEvent {
    open spec fn accepts(j: JsonValue) -> bool {
        &&& j is Object
        &&& member_accepts::<String>(j, "e"@)
        &&& member_accepts::<u64>(j, "E"@)
        &&& member_accepts::<String>(j, "ps"@)
        &&& member_accepts::<IndexKline>(j, "k"@)
    }

    open spec fn holds(&self, j: JsonValue) -> bool {
        &&& member_holds(self.event_type, j, "e"@)
        &&& member_holds(self.event_time, j, "E"@)
        &&& member_holds(self.pair, j, "ps"@)
        &&& member_holds(self.kline, j, "k"@)
    }

    fn from_json(j: &Json) -> (r: Option<IndexKlineEvent>) {
        if !j.is_object() {
            return None;
        }
        let event_type = member::<String>(j, "e")?;
        let event_time = member::<u64>(j, "E")?;
        let pair = member::<String>(j, "ps")?;
        let kline = member::<IndexKline>(j, "k")?;
        Some(
            IndexKlineEvent {
                event_type,
                event_time,
                pair,
                kline,
            },
        )
    }
}

/// An order by which a position was liquidated.
#[derive(Clone, Debug, PartialEq, Eq)]
pub struct LiquidationOrder {
    pub symbol: String,
    pub side: String,
    pub order_type: String,
    pub time_in_force: String,
    pub original_quantity: String,
    pub price: String,
    pub average_price: String,
    pub order_status: String,
    pub order_last_filled_quantity: String,
    pub order_filled_accumulated_quantity: String,
    pub order_trade_time: u64,
}

impl FromJson for LiquidationOrder {
    open spec fn accepts(j: JsonValue) -> bool {
        &&& j is Object
        &&& member_accepts::<String>(j, "s"@)
        &&& member_accepts::<String>(j, "S"@)
        &&& member_accepts::<String>(j, "o"@)
        &&& member_accepts::<String>(j, "f"@)
        &&& member_accepts::<String>(j, "q"@)
        &&& member_accepts::<String>(j, "p"@)
        &&& member_accepts::<String>(j, "ap"@)
        &&& member_accepts::<String>(j, "X"@)
        &&& member_accepts::<String>(j, "l"@)
        &&& member_accepts::<String>(j, "z"@)
        &&& member_accepts::<u64>(j, "T"@)
    }

    open spec fn holds(&self, j: JsonValue) -> bool {
        &&& member_holds(self.symbol, j, "s"@)
        &&& member_holds(self.side, j, "S"@)
        &&& member_holds(self.order_type, j, "o"@)
        &&& member_holds(self.time_in_force, j, "f"@)
        &&& member_holds(self.original_quantity, j, "q"@)
        &&& member_holds(self.price, j, "p"@)
        &&& member_holds(self.average_price, j, "ap"@)
        &&& member_holds(self.order_status, j, "X"@)
        &&& member_holds(self.order_last_filled_quantity, j, "l"@)
        &&& member_holds(self.order_filled_accumulated_quantity, j, "z"@)
        &&& member_holds(self.order_trade_time, j, "T"@)
    }

    fn from_json(j: &Json) -> (r: Option<LiquidationOrder>) {
        if !j.is_object() {
            return None;
        }
        let symbol = member::<String>(j, "s")?;
        let side = member::<String>(j, "S")?;
        let order_type = member::<String>(j, "o")?;
        let time_in_force = member::<String>(j, "f")?;
        let original_quantity = member::<String>(j, "q")?;
        let price = member::<String>(j, "p")?;
        let average_price = member::<String>(j, "ap")?;
        let order_status = member::<String>(j, "X")?;
        let order_last_filled_quantity = member::<String>(j, "l")?;
        let order_filled_accumulated_quantity = member::<String>(j, "z")?;
        let order_trade_time = member::<u64>(j, "T")?;
        Some(
            LiquidationOrder {
                symbol,
                side,
                order_type,
                time_in_force,
                original_quantity,
                price,
                average_price,
                order_status,
                order_last_filled_quantity,
                order_filled_accumulated_quantity,
                order_trade_time,
            },
        )
    }
}

/// A position was liquidated.
#[derive(Clone, Debug, PartialEq, Eq)]
pub struct LiquidationEvent {
    pub event_type: String,
    pub event_time: u64,
    pub liquidation_order: LiquidationOrder,
}

impl FromJson for LiquidationEvent {
    open spec fn accepts(j: JsonValue) -> bool {
        &&& j is Object
        &&& member_accepts::<String>(j, "e"@)
        &&& member_accepts::<u64>(j, "E"@)
        &&& member_accepts::<LiquidationOrder>(j, "o"@)
    }

    open spec fn holds(&self, j: JsonValue) -> bool {
        &&& member_holds(self.event_type, j, "e"@)
        &&& member_holds(self.event_time, j, "E"@)
        &&& member_holds(self.liquidation_order, j, "o"@)
    }

    fn from_json(j: &Json) -> (r: Option<LiquidationEvent>) {
        if !j.is_object() {
            return None;
        }
        let event_type = member::<String>(j, "e")?;
        let event_time = member::<u64>(j, "E")?;
        let liquidation_order = member::<LiquidationOrder>(j, "o")?;
        Some(
            LiquidationEvent {
                event_type,
                event_time,
                liquidation_order,
            },
        )
    }
}

/// The index price of a pair has changed.
#[derive(Clone, Debug, PartialEq, Eq)]
pub struct IndexPriceEvent {
    pub event_type: String,
    pub event_time: u64,
    pub pair: String,
    pub price: String,
}

impl FromJson for IndexPriceEvent {
    open spec fn accepts(j: JsonValue) -> bool {
        &&& j is Object
        &&& member_accepts::<String>(j, "e"@)
        &&& member_accepts::<u64>(j, "E"@)
        &&& member_accepts::<String>(j, "i"@)
        &&& member_accepts::<String>(j, "p"@)
    }

    open spec fn holds(&self, j: JsonValue) -> bool {
        &&& member_holds(self.event_type, j, "e"@)
        &&& member_holds(self.event_time, j, "E"@)
        &&& member_holds(self.pair, j, "i"@)
        &&& member_holds(self.price, j, "p"@)
    }

    fn from_json(j: &Json) -> (r: Option<IndexPriceEvent>) {
        if !j.is_object() {
            return None;
        }
        let event_type = member::<String>(j, "e")?;
        let event_time = member::<u64>(j, "E")?;
        let pair = member::<String>(j, "i")?;
        let price = member::<String>(j, "p")?;
        Some(
            IndexPriceEvent {
                event_type,
                event_time,
                pair,
                price,
            },
        )
    }
}

/// The mark price and funding rate of a symbol have changed.
#[derive(Clone, Debug, PartialEq, Eq)]
pub struct MarkPriceEvent {
    pub event_time: u64,
    pub estimate_settle_price: String,
    pub next_funding_time: u64,
    pub event_type: String,
    pub index_price: Option<String>,
    pub mark_price: String,
    pub funding_rate: String,
    pub symbol: String,
}

impl FromJson for MarkPriceEvent {
    open spec fn accepts(j: JsonValue) -> bool {
        &&& j is Object
        &&& member_accepts::<u64>(j, "E"@)
        &&& member_accepts::<String>(j, "P"@)
        &&& member_accepts::<u64>(j, "T"@)
        &&& member_accepts::<String>(j, "e"@)
        &&& optional_accepts::<String>(j, "i"@)
        &&& member_accepts::<String>(j, "p"@)
        &&& member_accepts::<String>(j, "r"@)
        &&& member_accepts::<String>(j, "s"@)
    }

    open spec fn holds(&self, j: JsonValue) -> bool {
        &&& member_holds(self.event_time, j, "E"@)
        &&& member_holds(self.estimate_settle_price, j, "P"@)
        &&& member_holds(self.next_funding_time, j, "T"@)
        &&& member_holds(self.event_type, j, "e"@)
        &&& optional_holds(self.index_price, j, "i"@)
        &&& member_holds(self.mark_price, j, "p"@)
        &&& member_holds(self.funding_rate, j, "r"@)
        &&& member_holds(self.symbol, j, "s"@)
    }

    fn from_json(j: &Json) -> (r: Option<MarkPriceEvent>) {
        if !j.is_object() {
            return None;
        }
        let event_time = member::<u64>(j, "E")?;
        let estimate_settle_price = member::<String>(j, "P")?;
        let next_funding_time = member::<u64>(j, "T")?;
        let event_type = member::<String>(j, "e")?;
        let index_price = optional_member::<String>(j, "i")?;
        let mark_price = member::<String>(j, "p")?;
        let funding_rate = member::<String>(j, "r")?;
        let symbol = member::<String>(j, "s")?;
        Some(
            MarkPriceEvent {
                event_time,
                estimate_settle_price,
                next_funding_time,
                event_type,
                index_price,
                mark_price,
                funding_rate,
                symbol,
            },
        )
    }
}

/// Short statistics of a symbol over the last 24 hours.
#[derive(Clone, Debug, PartialEq, Eq)]
pub struct MiniTickerEvent {
    pub event_type: String,
    pub event_time: u64,
    pub symbol: String,
    pub close: String,
    pub open: String,
    pub high: String,
    pub low: String,
    pub volume: String,
    pub quote_volume: String,
}

impl FromJson for MiniTickerEvent {
    open spec fn accepts(j: JsonValue) -> bool {
        &&& j is Object
        &&& member_accepts::<String>(j, "e"@)
        &&& member_accepts::<u64>(j, "E"@)
        &&& member_accepts::<String>(j, "s"@)
        &&& member_accepts::<String>(j, "c"@)
        &&& member_accepts::<String>(j, "o"@)
        &&& member_accepts::<String>(j, "h"@)
        &&& member_accepts::<String>(j, "l"@)
        &&& member_accepts::<String>(j, "v"@)
        &&& member_accepts::<String>(j, "q"@)
    }

    open spec fn holds(&self, j: JsonValue) -> bool {
        &&& member_holds(self.event_type, j, "e"@)
        &&& member_holds(self.event_time, j, "E"@)
        &&& member_holds(self.symbol, j, "s"@)
        &&& member_holds(self.close, j, "c"@)
        &&& member_holds(self.open, j, "o"@)
        &&& member_holds(self.high, j, "h"@)
        &&& member_holds(self.low, j, "l"@)
        &&& member_holds(self.volume, j, "v"@)
        &&& member_holds(self.quote_volume, j, "q"@)
    }

    fn from_json(j: &Json) -> (r: Option<MiniTickerEvent>) {
        if !j.is_object() {
            return None;
        }
        let event_type = member::<String>(j, "e")?;
        let event_time = member::<u64>(j, "E")?;
        let symbol = member::<String>(j, "s")?;
        let close = member::<String>(j, "c")?;
        let open = member::<String>(j, "o")?;
        let high = member::<String>(j, "h")?;
        let low = member::<String>(j, "l")?;
        let volume = member::<String>(j, "v")?;
        let quote_volume = member::<String>(j, "q")?;
        Some(
            MiniTickerEvent {
                event_type,
                event_time,
                symbol,
                close,
                open,
                high,
                low,
                volume,
                quote_volume,
            },
        )
    }
}

/// A trade between one buyer and one seller.
#[derive(Clone, Debug, PartialEq, Eq)]
pub struct TradeEvent {
    pub event_type: String,
    pub event_time: u64,
    pub symbol: String,
    pub trade_id: u64,
    pub price: String,
    pub qty: String,
    pub buyer_order_id: u64,
    pub seller_order_id: u64,
    pub trade_order_time: u64,
    pub is_buyer_maker: bool,
    /// Never read from a document.
    pub m_ignore: bool,
}

impl FromJson for TradeEvent {
    open spec fn accepts(j: JsonValue) -> bool {
        &&& j is Object
        &&& member_accepts::<String>(j, "e"@)
        &&& member_accepts::<u64>(j, "E"@)
        &&& member_accepts::<String>(j, "s"@)
        &&& member_accepts::<u64>(j, "t"@)
        &&& member_accepts::<String>(j, "p"@)
        &&& member_accepts::<String>(j, "q"@)
        &&& member_accepts::<u64>(j, "b"@)
        &&& member_accepts::<u64>(j, "a"@)
        &&& member_accepts::<u64>(j, "T"@)
        &&& member_accepts::<bool>(j, "m"@)
    }

    open spec fn holds(&self, j: JsonValue) -> bool {
        &&& member_holds(self.event_type, j, "e"@)
        &&& member_holds(self.event_time, j, "E"@)
        &&& member_holds(self.symbol, j, "s"@)
        &&& member_holds(self.trade_id, j, "t"@)
        &&& member_holds(self.price, j, "p"@)
        &&& member_holds(self.qty, j, "q"@)
        &&& member_holds(self.buyer_order_id, j, "b"@)
        &&& member_holds(self.seller_order_id, j, "a"@)
        &&& member_holds(self.trade_order_time, j, "T"@)
        &&& member_holds(self.is_buyer_maker, j, "m"@)
        &&& !self.m_ignore
    }

    fn from_json(j: &Json) -> (r: Option<TradeEvent>) {
        if !j.is_object() {
            return None;
        }
        let event_type = member::<String>(j, "e")?;
        let event_time = member::<u64>(j, "E")?;
        let symbol = member::<String>(j, "s")?;
        let trade_id = member::<u64>(j, "t")?;
        let price = member::<String>(j, "p")?;
        let qty = member::<String>(j, "q")?;
        let buyer_order_id = member::<u64>(j, "b")?;
        let seller_order_id = member::<u64>(j, "a")?;
        let trade_order_time = member::<u64>(j, "T")?;
        let is_buyer_maker = member::<bool>(j, "m")?;
        Some(
            TradeEvent {
                event_type,
                event_time,
                symbol,
                trade_id,
                price,
                qty,
                buyer_order_id,
                seller_order_id,
                trade_order_time,
                is_buyer_maker,
                m_ignore: false,
            },
        )
    }
}

/// The listen key of a user stream has expired.
#[derive(Clone, Debug, PartialEq, Eq)]
pub struct UserDataStreamExpiredEvent {
    pub event_type: String,
    pub event_time: u64,
}

impl FromJson for UserDataStreamExpiredEvent {
    open spec fn accepts(j: JsonValue) -> bool {
        &&& j is Object
        &&& member_accepts::<String>(j, "e"@)
        &&& member_accepts::<u64>(j, "E"@)
    }

    open spec fn holds(&self, j: JsonValue) -> bool {
        &&& member_holds(self.event_type, j, "e"@)
        &&& member_holds(self.event_time, j, "E"@)
    }

    fn from_json(j: &Json) -> (r: Option<UserDataStreamExpiredEvent>) {
        if !j.is_object() {
            return None;
        }
        let event_type = member::<String>(j, "e")?;
        let event_time = member::<u64>(j, "E")?;
        Some(
            UserDataStreamExpiredEvent {
                event_type,
                event_time,
            },
        )
    }
}

/// The order book of a symbol down to some depth.
#[derive(Clone, Debug, PartialEq, Eq)]
pub struct OrderBook {
    pub last_update_id: u64,
    pub bids: Vec<Bids>,
    pub asks: Vec<Asks>,
}

impl FromJson for OrderBook {
    open spec fn accepts(j: JsonValue) -> bool {
        &&& j is Object
        &&& member_accepts::<u64>(j, "lastUpdateId"@)
        &&& member_accepts::<Vec<Bids>>(j, "bids"@)
        &&& member_accepts::<Vec<Asks>>(j, "asks"@)
    }

    open spec fn holds(&self, j: JsonValue) -> bool {
        &&& member_holds(self.last_update_id, j, "lastUpdateId"@)
        &&& member_holds(self.bids, j, "bids"@)
        &&& member_holds(self.asks, j, "asks"@)
    }

    fn from_json(j: &Json) -> (r: Option<OrderBook>) {
        if !j.is_object() {
            return None;
        }
        let last_update_id = member::<u64>(j, "lastUpdateId")?;
        let bids = member::<Vec<Bids>>(j, "bids")?;
        let asks = member::<Vec<Asks>>(j, "asks")?;
        Some(
            OrderBook {
                last_update_id,
                bids,
                asks,
            },
        )
    }
}

/// A candlestick as the REST interface lists it.
#[derive(Clone, Debug, PartialEq, Eq)]
pub struct KlineSummary {
    pub open_time: i64,
    pub open: String,
    pub high: String,
    pub low: String,
    pub close: String,
    pub volume: String,
    pub close_time: i64,
    pub quote_asset_volume: String,
    pub number_of_trades: i64,
    pub taker_buy_base_asset_volume: String,
    pub taker_buy_quote_asset_volume: String,
}

impl FromJson for KlineSummary {
    open spec fn accepts(j: JsonValue) -> bool {
        &&& j is Object
        &&& member_accepts::<i64>(j, "open_time"@)
        &&& member_accepts::<String>(j, "open"@)
        &&& member_accepts::<String>(j, "high"@)
        &&& member_accepts::<String>(j, "low"@)
        &&& member_accepts::<String>(j, "close"@)
        &&& member_accepts::<String>(j, "volume"@)
        &&& member_accepts::<i64>(j, "close_time"@)
        &&& member_accepts::<String>(j, "quote_asset_volume"@)
        &&& member_accepts::<i64>(j, "number_of_trades"@)
        &&& member_accepts::<String>(j, "taker_buy_base_asset_volume"@)
        &&& member_accepts::<String>(j, "taker_buy_quote_asset_volume"@)
    }

    open spec fn holds(&self, j: JsonValue) -> bool {
        &&& member_holds(self.open_time, j, "open_time"@)
        &&& member_holds(self.open, j, "open"@)
        &&& member_holds(self.high, j, "high"@)
        &&& member_holds(self.low, j, "low"@)
        &&& member_holds(self.close, j, "close"@)
        &&& member_holds(self.volume, j, "volume"@)
        &&& member_holds(self.close_time, j, "close_time"@)
        &&& member_holds(self.quote_asset_volume, j, "quote_asset_volume"@)
        &&& member_holds(self.number_of_trades, j, "number_of_trades"@)
        &&& member_holds(self.taker_buy_base_asset_volume, j, "taker_buy_base_asset_volume"@)
        &&& member_holds(self.taker_buy_quote_asset_volume, j, "taker_buy_quote_asset_volume"@)
    }

    fn from_json(j: &Json) -> (r: Option<KlineSummary>) {
        if !j.is_object() {
            return None;
        }
        let open_time = member::<i64>(j, "open_time")?;
        let open = member::<String>(j, "open")?;
        let high = member::<String>(j, "high")?;
        let low = member::<String>(j, "low")?;
        let close = member::<String>(j, "close")?;
        let volume = member::<String>(j, "volume")?;
        let close_time = member::<i64>(j, "close_time")?;
        let quote_asset_volume = member::<String>(j, "quote_asset_volume")?;
        let number_of_trades = member::<i64>(j, "number_of_trades")?;
        let taker_buy_base_asset_volume = member::<String>(j, "taker_buy_base_asset_volume")?;
        let taker_buy_quote_asset_volume = member::<String>(j, "taker_buy_quote_asset_volume")?;
        Some(
            KlineSummary {
                open_time,
                open,
                high,
                low,
                close,
                volume,
                close_time,
                quote_asset_volume,
                number_of_trades,
                taker_buy_base_asset_volume,
                taker_buy_quote_asset_volume,
            },
        )
    }
}

/// The number of values in a candlestick row.
pub const KLINE_COLUMNS: usize = 11;

/// The name of each value of a candlestick row, by its position.
pub open spec fn kline_column(i: int) -> Seq<char> {
    if i == 0 {
        "open_time"@
    } else if i == 1 {
        "open"@
    } else if i == 2 {
        "high"@
    } else if i == 3 {
        "low"@
    } else if i == 4 {
        "close"@
    } else if i == 5 {
        "volume"@
    } else if i == 6 {
        "close_time"@
    } else if i == 7 {
        "quote_asset_volume"@
    } else if i == 8 {
        "number_of_trades"@
    } else if i == 9 {
        "taker_buy_base_asset_volume"@
    } else {
        "taker_buy_quote_asset_volume"@
    }
}

/// Whether the value at position `i` of a candlestick row has its form: the
/// two times and the number of trades are integers, the rest are strings.
pub open spec fn kline_column_accepts(i: int, j: JsonValue) -> bool {
    if i == 0 || i == 6 || i == 8 {
        i64::accepts(j)
    } else {
        String::accepts(j)
    }
}

/// The first position from `i` on at which a candlestick row fails, because
/// the row ends before it or the value there does not have its form;
/// `KLINE_COLUMNS` where the row is sound.
pub open spec fn kline_first_bad(row: Seq<JsonValue>, i: int) -> int
    decreases KLINE_COLUMNS - i,
{
    if i < 0 || i >= KLINE_COLUMNS {
        KLINE_COLUMNS as int
    } else if i >= row.len() || !kline_column_accepts(i, row[i]) {
        i
    } else {
        kline_first_bad(row, i + 1)
    }
}

/// Reads the value at `index` of a row; `name` says what it is.
fn column<T: FromJson>(row: &Vec<Json>, index: usize, name: &str) -> (r: Result<T, Error>)
    ensures
        r is Ok <==> index < row@.len() && T::accepts(row@[index as int]@),
        r matches Ok(v) ==> v.holds(row@[index as int]@),
        index >= row@.len() ==> (r matches Err(Error::KlineValueMissing(i, n)) && i == index
            && n@ == name@),
        index < row@.len() && !T::accepts(row@[index as int]@) ==> (r matches Err(Error::Decode)),
{
    if index >= row.len() {
        return Err(Error::KlineValueMissing(index, String::from_str(name)));
    }
    match T::from_json(&row[index]) {
        Some(v) => Ok(v),
        None => Err(Error::Decode),
    }
}

impl KlineSummary {
    /// Whether `self` holds the values of a row, each at its position.
    pub open spec fn holds_row(&self, row: Seq<JsonValue>) -> bool {
        &&& self.open_time.holds(row[0])
        &&& self.open.holds(row[1])
        &&& self.high.holds(row[2])
        &&& self.low.holds(row[3])
        &&& self.close.holds(row[4])
        &&& self.volume.holds(row[5])
        &&& self.close_time.holds(row[6])
        &&& self.quote_asset_volume.holds(row[7])
        &&& self.number_of_trades.holds(row[8])
        &&& self.taker_buy_base_asset_volume.holds(row[9])
        &&& self.taker_buy_quote_asset_volume.holds(row[10])
    }
}

impl vstd::std_specs::convert::TryFromSpecImpl<&Vec<Json>> for KlineSummary {
    /// What `try_from` returns is stated by `try_from` itself.
    open spec fn obeys_try_from_spec() -> bool {
        false
    }

    open spec fn try_from_spec(row: &Vec<Json>) -> Result<KlineSummary, Error> {
        arbitrary()
    }
}

impl TryFrom<&Vec<Json>> for KlineSummary {
    type Error = Error;

    /// Reads a candlestick from a row of values. The first position at which
    /// the row fails decides the error: `KlineValueMissing` with the position
    /// and the name of the value where the row ends before it, `Decode` where
    /// the value there does not have its form.
    fn try_from(row: &Vec<Json>) -> (r: Result<KlineSummary, Error>)
        ensures
            r is Ok <==> kline_first_bad(item_values(row@), 0) == KLINE_COLUMNS,
            r matches Ok(k) ==> k.holds_row(item_values(row@)),
            r matches Err(e) ==> {
                let bad = kline_first_bad(item_values(row@), 0);
                if bad >= row@.len() {
                    (e matches Error::KlineValueMissing(i, name) && i == bad && name@
                        == kline_column(bad))
                } else {
                    e is Decode
                }
            },
    {
        reveal_with_fuel(kline_first_bad, 12);
        proof {
            lemma_item_values(row@);
        }
        let open_time = match column::<i64>(row, 0, "open_time") {
            Ok(v) => v,
            Err(e) => {
                return Err(e);
            },
        };
        let open = match column::<String>(row, 1, "open") {
            Ok(v) => v,
            Err(e) => {
                return Err(e);
            },
        };
        let high = match column::<String>(row, 2, "high") {
            Ok(v) => v,
            Err(e) => {
                return Err(e);
            },
        };
        let low = match column::<String>(row, 3, "low") {
            Ok(v) => v,
            Err(e) => {
                return Err(e);
            },
        };
        let close = match column::<String>(row, 4, "close") {
            Ok(v) => v,
            Err(e) => {
                return Err(e);
            },
        };
        let volume = match column::<String>(row, 5, "volume") {
            Ok(v) => v,
            Err(e) => {
                return Err(e);
            },
        };
        let close_time = match column::<i64>(row, 6, "close_time") {
            Ok(v) => v,
            Err(e) => {
                return Err(e);
            },
        };
        let quote_asset_volume = match column::<String>(row, 7, "quote_asset_volume") {
            Ok(v) => v,
            Err(e) => {
                return Err(e);
            },
        };
        let number_of_trades = match column::<i64>(row, 8, "number_of_trades") {
            Ok(v) => v,
            Err(e) => {
                return Err(e);
            },
        };
        let taker_buy_base_asset_volume = match column::<String>(
            row,
            9,
            "taker_buy_base_asset_volume",
        ) {
            Ok(v) => v,
            Err(e) => {
                return Err(e);
            },
        };
        let taker_buy_quote_asset_volume = match column::<String>(
            row,
            10,
            "taker_buy_quote_asset_volume",
        ) {
            Ok(v) => v,
            Err(e) => {
                return Err(e);
            },
        };
        Ok(
            KlineSummary {
                open_time,
                open,
                high,
                low,
                close,
                volume,
                close_time,
                quote_asset_volume,
                number_of_trades,
                taker_buy_base_asset_volume,
                taker_buy_quote_asset_volume,
            },
        )
    }
}

} // verus!
