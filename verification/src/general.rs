//! Connectivity, and the exchange's trading rules, kept for ten minutes.
//!
//! The rules are fetched when the caller asks for it and never on their own.
//! A reader sees the rules of one fetch or none: they are replaced as a
//! whole, together with the time of the fetch.

use std::time::SystemTime;
use vstd::prelude::*;
use vstd::string::*;

use crate::api::API;
use crate::api::Spot;
use crate::client::is_failure_of;
use crate::client::plain_url;
use crate::client::request_is;
use crate::client::Client;
use crate::client::Method;
use crate::client::Request;
use crate::client::Response;
use crate::errors::Error;
use crate::json::json_of_bytes;
use crate::json::FromJson;
use crate::json::Json;
use crate::model::Empty;
use crate::model::ServerTime;
use crate::spot::model::ExchangeInformation;
use crate::spot::model::Symbol;
use crate::text::str_eq;
use crate::util::epoch_offset;
use crate::util::now_secs;
use crate::util::seconds_of;

verus! {

/// The seconds for which fetched rules are served.
pub const CACHE_TTL: u64 = 600;

/// The upper-case form of a text, as `str::to_uppercase` gives it.
pub uninterp spec fn uppercase(text: Seq<char>) -> Seq<char>;

/// Calls `str::to_uppercase`. The result is a function of the text alone,
/// named `uppercase`.
#[verifier::external_body]
fn to_uppercase(text: &str) -> (upper: String)
    ensures
        upper@ == uppercase(text@),
{
    text.to_uppercase()
}

/// The position of the first symbol named `name` among `symbols`, looking
/// from position `from` on.
pub open spec fn symbol_position(symbols: Seq<Symbol>, name: Seq<char>, from: int) -> Option<int>
    decreases symbols.len() - from,
{
    if from < 0 || from >= symbols.len() {
        None
    } else if symbols[from].symbol@ == name {
        Some(from)
    } else {
        symbol_position(symbols, name, from + 1)
    }
}

/// The trading rules of one fetch, with the time of the fetch in seconds
/// since the epoch.
#[derive(Clone, Debug)]
pub struct Cache {
    snapshot: Option<ExchangeInformation>,
    fetched_at: Option<u64>,
}

impl Cache {
    pub closed spec fn snapshot(&self) -> Option<ExchangeInformation> {
        self.snapshot
    }

    pub closed spec fn fetched_at(&self) -> Option<u64> {
        self.fetched_at
    }

    /// Whether rules are held that were fetched at or before `now` and less
    /// than `CACHE_TTL` seconds ago.
    pub open spec fn is_fresh(&self, now: u64) -> bool {
        &&& self.snapshot() is Some
        &&& self.fetched_at() matches Some(t)
        &&& t <= now < t + CACHE_TTL
    }

    /// A cache that holds nothing.
    pub fn new() -> (cache: Cache)
        ensures
            cache.snapshot() is None,
            cache.fetched_at() is None,
    {
        Cache { snapshot: None, fetched_at: None }
    }

    /// Replaces the rules and the time of their fetch together.
    pub fn store(&mut self, info: ExchangeInformation, now: u64)
        ensures
            final(self).snapshot() == Some(info),
            final(self).fetched_at() == Some(now),
    {
        *self = Cache { snapshot: Some(info), fetched_at: Some(now) };
    }

    /// Whether the rules held are fresh at `now`.
    pub fn has_cache(&self, now: u64) -> (fresh: bool)
        ensures
            fresh == self.is_fresh(now),
    {
        match (&self.snapshot, self.fetched_at) {
            (Some(_), Some(t)) => t <= now && now - t < CACHE_TTL,
            _ => false,
        }
    }

    /// The rules, if they are fresh at `now`; `NoCache` otherwise.
    pub fn exchange_info(&self, now: u64) -> (r: Result<&ExchangeInformation, Error>)
        ensures
            self.is_fresh(now) ==> (r matches Ok(info) && Some(*info) == self.snapshot()),
            !self.is_fresh(now) ==> (r matches Err(Error::NoCache)),
    {
        if self.has_cache(now) {
            match &self.snapshot {
                Some(info) => Ok(info),
                None => Err(Error::NoCache),
            }
        } else {
            Err(Error::NoCache)
        }
    }

    /// The exchange's clock as of the fetch, if the rules are fresh at
    /// `now`; `NoCache` otherwise.
    pub fn get_server_time(&self, now: u64) -> (r: Result<ServerTime, Error>)
        ensures
            self.is_fresh(now) ==> (r matches Ok(time) && time.server_time
                == self.snapshot()->0.server_time),
            !self.is_fresh(now) ==> (r matches Err(Error::NoCache)),
    {
        match self.exchange_info(now) {
            Ok(info) => Ok(ServerTime { server_time: info.server_time }),
            Err(_) => Err(Error::NoCache),
        }
    }

    /// The rules of the symbol whose name is `symbol` in upper case: the
    /// first such symbol of fresh rules. Fails with `NoCache` where the
    /// rules are not fresh at `now`, before any symbol is looked at, and
    /// with `SymbolNotFound` where fresh rules hold no such symbol.
    pub fn get_symbol_info(&self, symbol: &str, now: u64) -> (r: Result<&Symbol, Error>)
        ensures
            !self.is_fresh(now) ==> (r matches Err(Error::NoCache)),
            self.is_fresh(now) ==> match symbol_position(
                self.snapshot()->0.symbols@,
                uppercase(symbol@),
                0,
            ) {
                Some(i) => (r matches Ok(found) && *found == self.snapshot()->0.symbols@[i]),
                None => (r matches Err(Error::SymbolNotFound)),
            },
    {
        let info = match self.exchange_info(now) {
            Ok(info) => info,
            Err(_) => {
                return Err(Error::NoCache);
            },
        };
        let upper_symbol = to_uppercase(symbol);
        let n = info.symbols.len();
        let mut i: usize = 0;
        while i < n
            invariant
                n == info.symbols@.len(),
                i <= n,
                self.is_fresh(now),
                Some(*info) == self.snapshot(),
                upper_symbol@ == uppercase(symbol@),
                symbol_position(info.symbols@, upper_symbol@, 0) == symbol_position(
                    info.symbols@,
                    upper_symbol@,
                    i as int,
                ),
            decreases n - i,
        {
            if str_eq(info.symbols[i].symbol.as_str(), upper_symbol.as_str()) {
                return Ok(&info.symbols[i]);
            }
            i += 1;
        }
        Err(Error::SymbolNotFound)
    }
}

/// Rules fetched at `fetched` are fresh from then until `CACHE_TTL` seconds
/// later, and stale from that moment on.
pub proof fn lemma_fresh_window(cache: Cache, fetched: u64, now: u64)
    requires
        cache.snapshot() is Some,
        cache.fetched_at() == Some(fetched),
        fetched <= now,
    ensures
        now < fetched + CACHE_TTL ==> cache.is_fresh(now),
        now >= fetched + CACHE_TTL ==> !cache.is_fresh(now),
{
}

/// A cache that holds nothing is fresh at no time.
pub proof fn lemma_empty_is_stale(cache: Cache, now: u64)
    requires
        cache.snapshot() is None || cache.fetched_at() is None,
    ensures
        !cache.is_fresh(now),
{
}

/// Whether `r` is what a reply to a fetch of the rules means: the rules
/// that the body holds for status 200, `Decode` where it holds none, and the
/// failure that the status stands for otherwise.
pub open spec fn is_rules_reply(response: Response, r: Result<ExchangeInformation, Error>) -> bool {
    if response.status == 200 {
        match json_of_bytes(response.body@) {
            Some(j) => if ExchangeInformation::accepts(j) {
                (r matches Ok(info) && info.holds(j))
            } else {
                (r matches Err(Error::Decode))
            },
            None => (r matches Err(Error::Decode)),
        }
    } else {
        (r matches Err(e) && is_failure_of(response, e))
    }
}

/// Reads the rules from the document of a reply.
pub fn rules_of(document: &Json) -> (r: Result<ExchangeInformation, Error>)
    ensures
        r is Ok <==> ExchangeInformation::accepts(document@),
        r matches Ok(info) ==> info.holds(document@),
        r matches Err(e) ==> e is Decode,
{
    match ExchangeInformation::from_json(document) {
        Some(info) => Ok(info),
        None => Err(Error::Decode),
    }
}

/// The general endpoints of the spot market, with a cache of its rules.
#[derive(Clone, Debug)]
pub struct General {
    pub client: Client,
    pub cache: Cache,
}

impl General {
    /// The request that tests connectivity.
    pub fn ping(&self) -> (plan: Request)
        ensures
            request_is(
                plan,
                Method::Get,
                plain_url(self.client.host(), API::Spot(Spot::Ping)),
                Seq::empty(),
                None,
            ),
    {
        self.client.get(API::Spot(Spot::Ping), None)
    }

    /// The meaning of a reply to `ping`: `pong` for status 200 with a body
    /// that is an object.
    pub fn pong(&self, response: Response) -> (r: Result<String, Error>)
        ensures
            r matches Ok(text) ==> (text@ == "pong"@ && response.status == 200),
            r is Ok <==> (response.status == 200 && (json_of_bytes(response.body@) matches Some(j)
                && Empty::accepts(j))),
            r matches Err(e) ==> if response.status == 200 {
                e is Decode
            } else {
                is_failure_of(response, e)
            },
    {
        match self.client.handler(response) {
            Ok(document) => match Empty::from_json(&document) {
                Some(_) => Ok(String::from_str("pong")),
                None => Err(Error::Decode),
            },
            Err(e) => Err(e),
        }
    }

    /// The request that fetches the rules.
    pub fn update_cache(&self) -> (plan: Request)
        ensures
            request_is(
                plan,
                Method::Get,
                plain_url(self.client.host(), API::Spot(Spot::ExchangeInfo)),
                Seq::empty(),
                None,
            ),
    {
        self.client.get(API::Spot(Spot::ExchangeInfo), None)
    }

    /// Takes the reply to `update_cache`, received at `now`. Rules that the
    /// reply holds replace those in the cache; a failure leaves the cache as
    /// it is.
    pub fn update_cache_reply(&mut self, response: Response, now: u64) -> (r: Result<(), Error>)
        ensures
            final(self).client == old(self).client,
            r is Ok ==> (final(self).cache.fetched_at() == Some(now) && is_rules_reply(
                response,
                Ok(final(self).cache.snapshot()->0),
            ) && final(self).cache.snapshot() is Some),
            r matches Err(e) ==> (final(self).cache == old(self).cache && is_rules_reply(
                response,
                Err(e),
            )),
    {
        let document = match self.client.handler(response) {
            Ok(document) => document,
            Err(e) => {
                return Err(e);
            },
        };
        match rules_of(&document) {
            Ok(info) => {
                self.cache.store(info, now);
                Ok(())
            },
            Err(e) => Err(e),
        }
    }

    /// Whether fresh rules are held now: whether the rules are fresh at the
    /// second that the system's clock gave. A clock that stands before the
    /// epoch makes them stale.
    pub fn has_cache(&self) -> (fresh: bool)
        ensures
            exists|time: SystemTime|
                fresh == fresh_by(self.cache, seconds_of(#[trigger] epoch_offset(time))),
            fresh ==> exists|now: u64| self.cache.is_fresh(now),
    {
        match now_secs() {
            Some(now) => self.cache.has_cache(now),
            None => false,
        }
    }

    /// The rules, if they are fresh now; the flag says that they come from
    /// the cache.
    pub fn exchange_info(&self) -> (r: Result<(&ExchangeInformation, bool), Error>)
        ensures
            r matches Ok(found) ==> (Some(*found.0) == self.cache.snapshot() && found.1 && exists|
                now: u64,
            | self.cache.is_fresh(now)),
            r matches Err(e) ==> e is NoCache,
    {
        match now_secs() {
            Some(now) => match self.cache.exchange_info(now) {
                Ok(info) => Ok((info, true)),
                Err(_) => Err(Error::NoCache),
            },
            None => Err(Error::NoCache),
        }
    }

    /// The exchange's clock as of the fetch, if the rules are fresh now.
    pub fn get_server_time(&self) -> (r: Result<ServerTime, Error>)
        ensures
            r matches Ok(time) ==> (self.cache.snapshot() matches Some(info) && time.server_time
                == info.server_time),
            r matches Err(e) ==> e is NoCache,
    {
        match now_secs() {
            Some(now) => self.cache.get_server_time(now),
            None => Err(Error::NoCache),
        }
    }

    /// The rules of `symbol`, looked up without regard to case in the rules
    /// that are fresh now.
    pub fn get_symbol_info(&self, symbol: &str) -> (r: Result<&Symbol, Error>)
        ensures
            r matches Ok(found) ==> (self.cache.snapshot() matches Some(info) && (symbol_position(
                info.symbols@,
                uppercase(symbol@),
                0,
            ) matches Some(i) && *found == info.symbols@[i])),
            r matches Err(e) ==> (e is NoCache || (e is SymbolNotFound && (
            self.cache.snapshot() matches Some(info) && symbol_position(
                info.symbols@,
                uppercase(symbol@),
                0,
            ) is None))),
    {
        match now_secs() {
            Some(now) => self.cache.get_symbol_info(symbol, now),
            None => Err(Error::NoCache),
        }
    }
}

/// Whether the rules that `cache` holds are fresh by a reading of the
/// clock: at the second it gave, and never where it gave none.
pub open spec fn fresh_by(cache: Cache, clock: Option<u64>) -> bool {
    clock matches Some(now) && cache.is_fresh(now)
}

} // verus!
