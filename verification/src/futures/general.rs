//! Connectivity and the trading rules of the futures market, kept for ten
//! minutes.

use std::time::SystemTime;
use vstd::prelude::*;
use vstd::string::*;

use crate::api::API;
use crate::api::Futures;
use crate::client::is_failure_of;
use crate::client::plain_url;
use crate::client::request_is;
use crate::client::Client;
use crate::client::Method;
use crate::client::Request;
use crate::client::Response;
use crate::errors::Error;
use crate::general::fresh_by;
use crate::general::is_rules_reply;
use crate::general::rules_of;
use crate::general::symbol_position;
use crate::general::uppercase;
use crate::general::Cache;
use crate::json::json_of_bytes;
use crate::json::FromJson;
use crate::model::Empty;
use crate::model::ServerTime;
use crate::spot::model::ExchangeInformation;
use crate::spot::model::Symbol;
use crate::util::epoch_offset;
use crate::util::now_secs;
use crate::util::seconds_of;

verus! {

/// The general endpoints of the futures market, with a cache of its rules.
#[derive(Clone, Debug)]
pub struct General {
    pub client: Client,
    pub cache: Cache,
}

impl General {
    /// The request that tests connectivity.
    pub fn ping(&self) -> (plan: Request)
        ensures
            request_is(
                plan,
                Method::Get,
                plain_url(self.client.host(), API::Futures(Futures::Ping)),
                Seq::empty(),
                None,
            ),
    {
        self.client.get(API::Futures(Futures::Ping), None)
    }

    /// The meaning of a reply to `ping`: `pong` for status 200 with a body
    /// that is an object.
    pub fn pong(&self, response: Response) -> (r: Result<String, Error>)
        ensures
            r matches Ok(text) ==> (text@ == "pong"@ && response.status == 200),
            r is Ok <==> (response.status == 200 && (json_of_bytes(response.body@) matches Some(j)
                && Empty::accepts(j))),
            r matches Err(e) ==> if response.status == 200 {
                e is Decode
            } else {
                is_failure_of(response, e)
            },
    {
        match self.client.handler(response) {
            Ok(document) => match Empty::from_json(&document) {
                Some(_) => Ok(String::from_str("pong")),
                None => Err(Error::Decode),
            },
            Err(e) => Err(e),
        }
    }

    /// The request that fetches the rules.
    pub fn update_cache(&self) -> (plan: Request)
        ensures
            request_is(
                plan,
                Method::Get,
                plain_url(self.client.host(), API::Futures(Futures::ExchangeInfo)),
                Seq::empty(),
                None,
            ),
    {
        self.client.get(API::Futures(Futures::ExchangeInfo), None)
    }

    /// Takes the reply to `update_cache`, received at `now`. Rules that the
    /// reply holds replace those in the cache; a failure leaves the cache as
    /// it is.
    pub fn update_cache_reply(&mut self, response: Response, now: u64) -> (r: Result<(), Error>)
        ensures
            final(self).client == old(self).client,
            r is Ok ==> (final(self).cache.fetched_at() == Some(now) && is_rules_reply(
                response,
                Ok(final(self).cache.snapshot()->0),
            ) && final(self).cache.snapshot() is Some),
            r matches Err(e) ==> (final(self).cache == old(self).cache && is_rules_reply(
                response,
                Err(e),
            )),
    {
        let document = match self.client.handler(response) {
            Ok(document) => document,
            Err(e) => {
                return Err(e);
            },
        };
        match rules_of(&document) {
            Ok(info) => {
                self.cache.store(info, now);
                Ok(())
            },
            Err(e) => Err(e),
        }
    }

    /// Whether fresh rules are held now: whether the rules are fresh at the
    /// second that the system's clock gave. A clock that stands before the
    /// epoch makes them stale.
    pub fn has_cache(&self) -> (fresh: bool)
        ensures
            exists|time: SystemTime|
                fresh == fresh_by(self.cache, seconds_of(#[trigger] epoch_offset(time))),
            fresh ==> exists|now: u64| self.cache.is_fresh(now),
    {
        match now_secs() {
            Some(now) => self.cache.has_cache(now),
            None => false,
        }
    }

    /// The rules, if they are fresh now; the flag says that they come from
    /// the cache.
    pub fn exchange_info(&self) -> (r: Result<(&ExchangeInformation, bool), Error>)
        ensures
            r matches Ok(found) ==> (Some(*found.0) == self.cache.snapshot() && found.1 && exists|
                now: u64,
            | self.cache.is_fresh(now)),
            r matches Err(e) ==> e is NoCache,
    {
        match now_secs() {
            Some(now) => match self.cache.exchange_info(now) {
                Ok(info) => Ok((info, true)),
                Err(_) => Err(Error::NoCache),
            },
            None => Err(Error::NoCache),
        }
    }

    /// The request for the exchange's clock.
    pub fn get_server_time(&self) -> (plan: Request)
        ensures
            request_is(
                plan,
                Method::Get,
                plain_url(self.client.host(), API::Futures(Futures::Time)),
                Seq::empty(),
                None,
            ),
    {
        self.client.get(API::Futures(Futures::Time), None)
    }

    /// The exchange's clock that a reply to `get_server_time` holds.
    pub fn server_time(&self, response: Response) -> (r: Result<ServerTime, Error>)
        ensures
            r is Ok <==> (response.status == 200 && (
            json_of_bytes(response.body@) matches Some(j) && ServerTime::accepts(j))),
            r matches Ok(time) ==> time.holds(json_of_bytes(response.body@)->0),
            r matches Err(e) ==> if response.status == 200 {
                e is Decode
            } else {
                is_failure_of(response, e)
            },
    {
        match self.client.handler(response) {
            Ok(document) => match ServerTime::from_json(&document) {
                Some(time) => Ok(time),
                None => Err(Error::Decode),
            },
            Err(e) => Err(e),
        }
    }

    /// The rules of `symbol`, looked up without regard to case in the rules
    /// that are fresh now.
    pub fn get_symbol_info(&self, symbol: &str) -> (r: Result<&Symbol, Error>)
        ensures
            r matches Ok(found) ==> (self.cache.snapshot() matches Some(info) && (symbol_position(
                info.symbols@,
                uppercase(symbol@),
                0,
            ) matches Some(i) && *found == info.symbols@[i])),
            r matches Err(e) ==> (e is NoCache || (e is SymbolNotFound && (
            self.cache.snapshot() matches Some(info) && symbol_position(
                info.symbols@,
                uppercase(symbol@),
                0,
            ) is None))),
    {
        match now_secs() {
            Some(now) => self.cache.get_symbol_info(symbol, now),
            None => Err(Error::NoCache),
        }
    }
}

} // verus!
