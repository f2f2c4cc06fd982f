//! The market data of the spot market.

use vstd::prelude::*;
use vstd::string::*;

use crate::api::API;
use crate::api::Spot;
use crate::client::is_failure_of;
use crate::client::is_query_plan;
use crate::client::Client;
use crate::client::Request;
use crate::client::Response;
use crate::errors::Error;
use crate::json::item_values;
use crate::json::json_of_bytes;
use crate::json::lemma_item_values;
use crate::json::Json;
use crate::json::JsonValue;
use crate::model::kline_first_bad;
use crate::model::KLINE_COLUMNS;
use crate::model::KlineSummaries;
use crate::model::KlineSummary;
use crate::text::decimal;
use crate::util::with_entry;
use crate::util::with_optional;
use crate::util::Entries;
use crate::util::Params;

verus! {

/// A limit as a 64-bit number.
pub open spec fn widened(limit: Option<u16>) -> Option<u64> {
    match limit {
        Some(l) => Some(l as u64),
        None => None,
    }
}

/// A limit as a 64-bit number.
pub fn widen(limit: Option<u16>) -> (r: Option<u64>)
    ensures
        r == widened(limit),
{
    match limit {
        Some(l) => Some(l as u64),
        None => None,
    }
}

/// The first row from position `from` on that is no sound candlestick row:
/// no array, or an array that fails at some value. `rows.len()` where all
/// are sound.
pub open spec fn first_bad_row(rows: Seq<JsonValue>, from: int) -> int
    decreases rows.len() - from,
{
    if from < 0 || from >= rows.len() {
        rows.len() as int
    } else if !(rows[from] is Array) || kline_first_bad(rows[from]->Array_0, 0) != KLINE_COLUMNS {
        from
    } else {
        first_bad_row(rows, from + 1)
    }
}

/// Whether `r` is what reading candlesticks from rows gives: a candlestick
/// for each row, or the failure of the first row that is not sound.
pub open spec fn is_kline_reading(rows: Seq<JsonValue>, r: Result<KlineSummaries, Error>) -> bool {
    let bad = first_bad_row(rows, 0);
    if bad == rows.len() {
        r matches Ok(KlineSummaries::AllKlineSummaries(klines)) && klines@.len() == rows.len()
            && forall|i: int|
            0 <= i < rows.len() ==> (#[trigger] klines@[i]).holds_row(rows[i]->Array_0)
    } else if !(rows[bad] is Array) {
        r matches Err(Error::Decode)
    } else {
        let row = rows[bad]->Array_0;
        let column = kline_first_bad(row, 0);
        if column >= row.len() {
            r matches Err(Error::KlineValueMissing(i, _)) && i == column
        } else {
            r matches Err(Error::Decode)
        }
    }
}

/// Whether `r` is what reading candlesticks from `document` gives: the
/// document must be an array of rows.
pub open spec fn is_document_reading(document: JsonValue, r: Result<KlineSummaries, Error>)
    -> bool {
    match document {
        JsonValue::Array(rows) => is_kline_reading(rows, r),
        _ => r matches Err(Error::Decode),
    }
}

/// Reads candlesticks from a document: an array of rows.
pub fn kline_summaries(document: &Json) -> (r: Result<KlineSummaries, Error>)
    ensures
        is_document_reading(document@, r),
{
    let rows = match document.as_array() {
        Some(rows) => rows,
        None => {
            return Err(Error::Decode);
        },
    };
    let ghost values = document@->Array_0;
    proof {
        lemma_item_values(rows@);
    }
    let n = rows.len();
    let mut klines: Vec<KlineSummary> = Vec::new();
    let mut i: usize = 0;
    while i < n
        invariant
            n == rows@.len(),
            i <= n,
            klines@.len() == i,
            document@ == JsonValue::Array(values),
            values.len() == n,
            forall|k: int| 0 <= k < n ==> values[k] == (#[trigger] rows@[k])@,
            first_bad_row(values, 0) == first_bad_row(values, i as int),
            forall|k: int| 0 <= k < i ==> (#[trigger] klines@[k]).holds_row(values[k]->Array_0),
        decreases n - i,
    {
        let row = match rows[i].as_array() {
            Some(row) => row,
            None => {
                return Err(Error::Decode);
            },
        };
        proof {
            lemma_item_values(row@);
            assert(values[i as int]->Array_0 == item_values(row@));
        }
        match KlineSummary::try_from(row) {
            Ok(kline) => {
                klines.push(kline);
            },
            Err(e) => {
                return Err(e);
            },
        }
        i += 1;
    }
    Ok(KlineSummaries::AllKlineSummaries(klines))
}

/// Whether `r` is what a reply to a request for candlesticks means.
pub open spec fn is_klines_reply(response: Response, r: Result<KlineSummaries, Error>) -> bool {
    if response.status == 200 {
        match json_of_bytes(response.body@) {
            Some(document) => is_document_reading(document, r),
            None => r matches Err(Error::Decode),
        }
    } else {
        r matches Err(e) && is_failure_of(response, e)
    }
}

/// The endpoints of market data.
#[derive(Clone, Debug)]
pub struct Market {
    pub client: Client,
    pub recv_window: u64,
}

impl Market {
    /// The request for the order book of a symbol at the depth that the
    /// exchange chooses.
    pub fn get_depth(&self, symbol: &str) -> (plan: Request)
        ensures
            is_query_plan(
                self.client,
                API::Spot(Spot::Depth),
                with_entry(Entries::empty(), "symbol"@, symbol@),
                plan,
            ),
    {
        let mut parameters = Params::new();
        parameters.set("symbol", symbol);
        self.client.query(API::Spot(Spot::Depth), parameters)
    }

    /// The request for the order book of a symbol at a depth of `depth` levels.
    pub fn get_custom_depth(&self, symbol: &str, depth: u64) -> (plan: Request)
        ensures
            is_query_plan(
                self.client,
                API::Spot(Spot::Depth),
                with_entry(
                    with_entry(Entries::empty(), "symbol"@, symbol@),
                    "limit"@,
                    decimal(depth as nat),
                ),
                plan,
            ),
    {
        let mut parameters = Params::new();
        parameters.set("symbol", symbol);
        parameters.set_number("limit", depth);
        self.client.query(API::Spot(Spot::Depth), parameters)
    }

    /// The request for the latest price of every symbol.
    pub fn get_all_prices(&self) -> (plan: Request)
        ensures
            is_query_plan(
                self.client,
                API::Spot(Spot::Price),
                Entries::empty(),
                plan,
            ),
    {
        let parameters = Params::new();
        self.client.query(API::Spot(Spot::Price), parameters)
    }

    /// The request for the latest price of a symbol.
    pub fn get_price(&self, symbol: &str) -> (plan: Request)
        ensures
            is_query_plan(
                self.client,
                API::Spot(Spot::Price),
                with_entry(Entries::empty(), "symbol"@, symbol@),
                plan,
            ),
    {
        let mut parameters = Params::new();
        parameters.set("symbol", symbol);
        self.client.query(API::Spot(Spot::Price), parameters)
    }

    /// The request for the average price of a symbol.
    pub fn get_average_price(&self, symbol: &str) -> (plan: Request)
        ensures
            is_query_plan(
                self.client,
                API::Spot(Spot::AvgPrice),
                with_entry(Entries::empty(), "symbol"@, symbol@),
                plan,
            ),
    {
        let mut parameters = Params::new();
        parameters.set("symbol", symbol);
        self.client.query(API::Spot(Spot::AvgPrice), parameters)
    }

    /// The request for the best bid and ask of every symbol.
    pub fn get_all_book_tickers(&self) -> (plan: Request)
        ensures
            is_query_plan(
                self.client,
                API::Spot(Spot::BookTicker),
                Entries::empty(),
                plan,
            ),
    {
        let parameters = Params::new();
        self.client.query(API::Spot(Spot::BookTicker), parameters)
    }

    /// The request for the best bid and ask of a symbol.
    pub fn get_book_ticker(&self, symbol: &str) -> (plan: Request)
        ensures
            is_query_plan(
                self.client,
                API::Spot(Spot::BookTicker),
                with_entry(Entries::empty(), "symbol"@, symbol@),
                plan,
            ),
    {
        let mut parameters = Params::new();
        parameters.set("symbol", symbol);
        self.client.query(API::Spot(Spot::BookTicker), parameters)
    }

    /// The request for the statistics of a symbol over the last 24 hours.
    pub fn get_24h_price_stats(&self, symbol: &str) -> (plan: Request)
        ensures
            is_query_plan(
                self.client,
                API::Spot(Spot::Ticker24hr),
                with_entry(Entries::empty(), "symbol"@, symbol@),
                plan,
            ),
    {
        let mut parameters = Params::new();
        parameters.set("symbol", symbol);
        self.client.query(API::Spot(Spot::Ticker24hr), parameters)
    }

    /// The request for the statistics of every symbol over the last 24
    /// hours.
    pub fn get_all_24h_price_stats(&self) -> (plan: Request)
        ensures
            is_query_plan(
                self.client,
                API::Spot(Spot::Ticker24hr),
                Entries::empty(),
                plan,
            ),
    {
        let parameters = Params::new();
        self.client.query(API::Spot(Spot::Ticker24hr), parameters)
    }

    /// The request for aggregated trades of a symbol. Without a first trade
    /// and without times, the latest ones are sent.
    pub fn get_agg_trades(
        &self,
        symbol: &str,
        from_id: Option<u64>,
        start_time: Option<u64>,
        end_time: Option<u64>,
        limit: Option<u16>,
    ) -> (plan: Request)
        ensures
            is_query_plan(
                self.client,
                API::Spot(Spot::AggTrades),
                with_optional(
                    with_optional(
                        with_optional(
                            with_optional(
                                with_entry(Entries::empty(), "symbol"@, symbol@),
                                "limit"@,
                                widened(limit),
                            ),
                            "startTime"@,
                            start_time,
                        ),
                        "endTime"@,
                        end_time,
                    ),
                    "fromId"@,
                    from_id,
                ),
                plan,
            ),
    {
        let mut parameters = Params::new();
        parameters.set("symbol", symbol);
        parameters.set_optional("limit", widen(limit));
        parameters.set_optional("startTime", start_time);
        parameters.set_optional("endTime", end_time);
        parameters.set_optional("fromId", from_id);
        self.client.query(API::Spot(Spot::AggTrades), parameters)
    }

    /// The request for up to `limit` candlesticks of a symbol at an interval
    /// such as `1m` or `5m`.
    pub fn get_klines(
        &self,
        symbol: &str,
        interval: &str,
        limit: Option<u16>,
        start_time: Option<u64>,
        end_time: Option<u64>,
    ) -> (plan: Request)
        ensures
            is_query_plan(
                self.client,
                API::Spot(Spot::Klines),
                with_optional(
                    with_optional(
                        with_optional(
                            with_entry(
                                with_entry(Entries::empty(), "symbol"@, symbol@),
                                "interval"@,
                                interval@,
                            ),
                            "limit"@,
                            widened(limit),
                        ),
                        "startTime"@,
                        start_time,
                    ),
                    "endTime"@,
                    end_time,
                ),
                plan,
            ),
    {
        let mut parameters = Params::new();
        parameters.set("symbol", symbol);
        parameters.set("interval", interval);
        parameters.set_optional("limit", widen(limit));
        parameters.set_optional("startTime", start_time);
        parameters.set_optional("endTime", end_time);
        self.client.query(API::Spot(Spot::Klines), parameters)
    }

    /// The candlesticks that a reply to `get_klines` holds.
    pub fn klines(&self, response: Response) -> (r: Result<KlineSummaries, Error>)
        ensures
            is_klines_reply(response, r),
    {
        match self.client.handler(response) {
            Ok(document) => kline_summaries(&document),
            Err(e) => Err(e),
        }
    }
}

} // verus!
