//! The market data of the futures market.

use vstd::prelude::*;
use vstd::string::*;

use crate::api::API;
use crate::api::Futures;
use crate::client::is_query_plan;
use crate::client::is_timed_plan;
use crate::client::Client;
use crate::client::Method;
use crate::client::Request;
use crate::client::Response;
use crate::errors::Error;
use crate::model::KlineSummaries;
use crate::spot::market::is_klines_reply;
use crate::spot::market::kline_summaries;
use crate::spot::market::widen;
use crate::spot::market::widened;
use crate::text::decimal;
use crate::util::with_entry;
use crate::util::with_optional;
use crate::util::Entries;
use crate::util::Params;

verus! {

/// The endpoints of market data.
#[derive(Clone, Debug)]
pub struct Market {
    pub client: Client,
    pub recv_window: u64,
}

impl Market {
    /// The request for the order book of a symbol at the depth that the
    /// exchange chooses.
    pub fn get_depth(&self, symbol: &str) -> (plan: Request)
        ensures
            is_query_plan(
                self.client,
                API::Futures(Futures::Depth),
                with_entry(Entries::empty(), "symbol"@, symbol@),
                plan,
            ),
    {
        let mut parameters = Params::new();
        parameters.set("symbol", symbol);
        self.client.query(API::Futures(Futures::Depth), parameters)
    }

    /// The request for the order book of a symbol at a depth of `depth` levels.
    pub fn get_custom_depth(&self, symbol: &str, depth: u64) -> (plan: Request)
        ensures
            is_query_plan(
                self.client,
                API::Futures(Futures::Depth),
                with_entry(
                    with_entry(Entries::empty(), "symbol"@, symbol@),
                    "limit"@,
                    decimal(depth as nat),
                ),
                plan,
            ),
    {
        let mut parameters = Params::new();
        parameters.set("symbol", symbol);
        parameters.set_number("limit", depth);
        self.client.query(API::Futures(Futures::Depth), parameters)
    }

    /// The request for the latest trades of a symbol.
    pub fn get_trades(&self, symbol: &str) -> (plan: Request)
        ensures
            is_query_plan(
                self.client,
                API::Futures(Futures::Trades),
                with_entry(Entries::empty(), "symbol"@, symbol@),
                plan,
            ),
    {
        let mut parameters = Params::new();
        parameters.set("symbol", symbol);
        self.client.query(API::Futures(Futures::Trades), parameters)
    }

    /// The request for older trades of a symbol, from the trade `from_id` on.
    pub fn get_historical_trades(
        &self,
        symbol: &str,
        from_id: Option<u64>,
        limit: Option<u16>,
    ) -> (r: Result<Request, Error>)
        ensures
            is_timed_plan(
                self.client,
                Method::Get,
                API::Futures(Futures::HistoricalTrades),
                with_optional(
                    with_optional(
                        with_entry(Entries::empty(), "symbol"@, symbol@),
                        "limit"@,
                        widened(limit),
                    ),
                    "fromId"@,
                    from_id,
                ),
                self.recv_window,
                r,
            ),
    {
        let mut parameters = Params::new();
        parameters.set("symbol", symbol);
        parameters.set_optional("limit", widen(limit));
        parameters.set_optional("fromId", from_id);
        self.client.timed_request(
            Method::Get,
            API::Futures(Futures::HistoricalTrades),
            parameters,
            self.recv_window,
        )
    }

    /// The request for the latest price of every symbol.
    pub fn get_all_prices(&self) -> (plan: Request)
        ensures
            is_query_plan(
                self.client,
                API::Futures(Futures::TickerPrice),
                Entries::empty(),
                plan,
            ),
    {
        let parameters = Params::new();
        self.client.query(API::Futures(Futures::TickerPrice), parameters)
    }

    /// The request for the latest price of a symbol.
    pub fn get_price(&self, symbol: &str) -> (plan: Request)
        ensures
            is_query_plan(
                self.client,
                API::Futures(Futures::TickerPrice),
                with_entry(Entries::empty(), "symbol"@, symbol@),
                plan,
            ),
    {
        let mut parameters = Params::new();
        parameters.set("symbol", symbol);
        self.client.query(API::Futures(Futures::TickerPrice), parameters)
    }

    /// The request for the best bid and ask of every symbol.
    pub fn get_all_book_tickers(&self) -> (plan: Request)
        ensures
            is_query_plan(
                self.client,
                API::Futures(Futures::BookTicker),
                Entries::empty(),
                plan,
            ),
    {
        let parameters = Params::new();
        self.client.query(API::Futures(Futures::BookTicker), parameters)
    }

    /// The request for the best bid and ask of a symbol.
    pub fn get_book_ticker(&self, symbol: &str) -> (plan: Request)
        ensures
            is_query_plan(
                self.client,
                API::Futures(Futures::BookTicker),
                with_entry(Entries::empty(), "symbol"@, symbol@),
                plan,
            ),
    {
        let mut parameters = Params::new();
        parameters.set("symbol", symbol);
        self.client.query(API::Futures(Futures::BookTicker), parameters)
    }

    /// The request for the statistics of a symbol over the last 24 hours.
    pub fn get_24h_price_stats(&self, symbol: &str) -> (plan: Request)
        ensures
            is_query_plan(
                self.client,
                API::Futures(Futures::Ticker24hr),
                with_entry(Entries::empty(), "symbol"@, symbol@),
                plan,
            ),
    {
        let mut parameters = Params::new();
        parameters.set("symbol", symbol);
        self.client.query(API::Futures(Futures::Ticker24hr), parameters)
    }

    /// The request for the statistics of every symbol over the last 24
    /// hours.
    pub fn get_all_24h_price_stats(&self) -> (plan: Request)
        ensures
            is_query_plan(
                self.client,
                API::Futures(Futures::Ticker24hr),
                Entries::empty(),
                plan,
            ),
    {
        let parameters = Params::new();
        self.client.query(API::Futures(Futures::Ticker24hr), parameters)
    }

    /// The request for aggregated trades of a symbol. Without a first trade
    /// and without times, the latest ones are sent.
    pub fn get_agg_trades(
        &self,
        symbol: &str,
        from_id: Option<u64>,
        start_time: Option<u64>,
        end_time: Option<u64>,
        limit: Option<u16>,
    ) -> (plan: Request)
        ensures
            is_query_plan(
                self.client,
                API::Futures(Futures::AggTrades),
                with_optional(
                    with_optional(
                        with_optional(
                            with_optional(
                                with_entry(Entries::empty(), "symbol"@, symbol@),
                                "limit"@,
                                widened(limit),
                            ),
                            "startTime"@,
                            start_time,
                        ),
                        "endTime"@,
                        end_time,
                    ),
                    "fromId"@,
                    from_id,
                ),
                plan,
            ),
    {
        let mut parameters = Params::new();
        parameters.set("symbol", symbol);
        parameters.set_optional("limit", widen(limit));
        parameters.set_optional("startTime", start_time);
        parameters.set_optional("endTime", end_time);
        parameters.set_optional("fromId", from_id);
        self.client.query(API::Futures(Futures::AggTrades), parameters)
    }

    /// The request for up to `limit` candlesticks of a symbol at an interval
    /// such as `1m` or `5m`.
    pub fn get_klines(
        &self,
        symbol: &str,
        interval: &str,
        limit: Option<u16>,
        start_time: Option<u64>,
        end_time: Option<u64>,
    ) -> (plan: Request)
        ensures
            is_query_plan(
                self.client,
                API::Futures(Futures::Klines),
                with_optional(
                    with_optional(
                        with_optional(
                            with_entry(
                                with_entry(Entries::empty(), "symbol"@, symbol@),
                                "interval"@,
                                interval@,
                            ),
                            "limit"@,
                            widened(limit),
                        ),
                        "startTime"@,
                        start_time,
                    ),
                    "endTime"@,
                    end_time,
                ),
                plan,
            ),
    {
        let mut parameters = Params::new();
        parameters.set("symbol", symbol);
        parameters.set("interval", interval);
        parameters.set_optional("limit", widen(limit));
        parameters.set_optional("startTime", start_time);
        parameters.set_optional("endTime", end_time);
        self.client.query(API::Futures(Futures::Klines), parameters)
    }

    /// The request for the mark price and funding rate of every symbol.
    pub fn get_mark_prices(&self) -> (plan: Request)
        ensures
            is_query_plan(
                self.client,
                API::Futures(Futures::PremiumIndex),
                Entries::empty(),
                plan,
            ),
    {
        let parameters = Params::new();
        self.client.query(API::Futures(Futures::PremiumIndex), parameters)
    }

    /// The request for the latest liquidation orders.
    pub fn get_all_liquidation_orders(&self) -> (plan: Request)
        ensures
            is_query_plan(
                self.client,
                API::Futures(Futures::AllForceOrders),
                Entries::empty(),
                plan,
            ),
    {
        let parameters = Params::new();
        self.client.query(API::Futures(Futures::AllForceOrders), parameters)
    }

    /// The request for the open interest of a symbol.
    pub fn open_interest(&self, symbol: &str) -> (plan: Request)
        ensures
            is_query_plan(
                self.client,
                API::Futures(Futures::OpenInterest),
                with_entry(Entries::empty(), "symbol"@, symbol@),
                plan,
            ),
    {
        let mut parameters = Params::new();
        parameters.set("symbol", symbol);
        self.client.query(API::Futures(Futures::OpenInterest), parameters)
    }

    /// The request for the history of the open interest of a symbol over
    /// periods such as `5m`.
    pub fn open_interest_statistics(
        &self,
        symbol: &str,
        period: &str,
        limit: Option<u16>,
        start_time: Option<u64>,
        end_time: Option<u64>,
    ) -> (plan: Request)
        ensures
            is_query_plan(
                self.client,
                API::Futures(Futures::OpenInterestHist),
                with_optional(
                    with_optional(
                        with_optional(
                            with_entry(
                                with_entry(Entries::empty(), "symbol"@, symbol@),
                                "period"@,
                                period@,
                            ),
                            "limit"@,
                            widened(limit),
                        ),
                        "startTime"@,
                        start_time,
                    ),
                    "endTime"@,
                    end_time,
                ),
                plan,
            ),
    {
        let mut parameters = Params::new();
        parameters.set("symbol", symbol);
        parameters.set("period", period);
        parameters.set_optional("limit", widen(limit));
        parameters.set_optional("startTime", start_time);
        parameters.set_optional("endTime", end_time);
        self.client.query(API::Futures(Futures::OpenInterestHist), parameters)
    }

    /// The candlesticks that a reply to `get_klines` holds.
    pub fn klines(&self, response: Response) -> (r: Result<KlineSummaries, Error>)
        ensures
            is_klines_reply(response, r),
    {
        match self.client.handler(response) {
            Ok(document) => kline_summaries(&document),
            Err(e) => Err(e),
        }
    }
}

} // verus!
