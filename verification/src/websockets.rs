//! The streams of the spot market: their addresses, their events, and the
//! course of a session.

use vstd::prelude::*;
use vstd::string::*;

use crate::config::Config;
use crate::errors::Error;
use crate::json::json_of_text;
use crate::json::FromJson;
use crate::json::Json;
use crate::json::JsonValue;
use crate::model::AccountUpdateEvent;
use crate::model::AggrTradesEvent;
use crate::model::BalanceUpdateEvent;
use crate::model::BookTickerEvent;
use crate::model::DayTickerEvent;
use crate::model::DepthOrderBookEvent;
use crate::model::KlineEvent;
use crate::model::OrderBook;
use crate::model::TradeEvent;
use crate::session::is_step;
use crate::session::is_url;
use crate::session::join;
use crate::session::joined;
use crate::session::lemma_envelope_is_transparent;
use crate::session::payload;
use crate::session::payload_of;
use crate::session::state_after;
use crate::session::take_turn;
use crate::session::texts_of;
use crate::session::url_parses;
use crate::session::Frame;
use crate::session::Incoming;
use crate::session::MAX_ENVELOPES;
use crate::session::SessionState;
use crate::session::Step;
use crate::session::Turn;
use crate::spot::model::OrderTradeEvent;

verus! {

/// The kinds of address of a stream.
#[allow(clippy::all)]
#[derive(Clone, Debug)]
pub enum WebsocketAPI {
    /// One stream at the exchange.
    Default,
    /// Several streams combined at the exchange.
    MultiStream,
    /// One stream at the host that is carried.
    Custom(String),
}

/// The address of the streams `subscription`.
pub open spec fn stream_url(api: WebsocketAPI, subscription: Seq<char>) -> Seq<char> {
    match api {
        WebsocketAPI::Default => "wss://stream.binance.com:9443/ws/"@ + subscription,
        WebsocketAPI::MultiStream => "wss://stream.binance.com:9443/stream?streams="@
            + subscription,
        WebsocketAPI::Custom(url) => url@ + "/"@ + subscription,
    }
}

impl WebsocketAPI {
    /// The address of the streams `subscription`.
    pub fn params(self, subscription: &str) -> (url: String)
        ensures
            url@ == stream_url(self, subscription@),
    {
        match self {
            WebsocketAPI::Default => {
                let mut url = String::from_str("wss://stream.binance.com:9443/ws/");
                url.append(subscription);
                url
            },
            WebsocketAPI::MultiStream => {
                let mut url = String::from_str("wss://stream.binance.com:9443/stream?streams=");
                url.append(subscription);
                url
            },
            WebsocketAPI::Custom(url) => {
                let mut url = url;
                url.append("/");
                url.append(subscription);
                url
            },
        }
    }
}

/// An event of a stream.
#[allow(clippy::large_enum_variant)]
#[derive(Clone, Debug, PartialEq, Eq)]
pub enum WebsocketEvent {
    AccountUpdate(AccountUpdateEvent),
    BalanceUpdate(BalanceUpdateEvent),
    OrderTrade(OrderTradeEvent),
    AggrTrades(AggrTradesEvent),
    Trade(TradeEvent),
    OrderBook(OrderBook),
    DayTicker(DayTickerEvent),
    DayTickerAll(Vec<DayTickerEvent>),
    Kline(KlineEvent),
    DepthOrderBook(DepthOrderBookEvent),
    BookTicker(BookTickerEvent),
}

/// Whether a document has the form of an event.
pub open spec fn is_recognized(j: JsonValue) -> bool {
    ||| Vec::<DayTickerEvent>::accepts(j)
    ||| BalanceUpdateEvent::accepts(j)
    ||| DayTickerEvent::accepts(j)
    ||| BookTickerEvent::accepts(j)
    ||| AccountUpdateEvent::accepts(j)
    ||| OrderTradeEvent::accepts(j)
    ||| AggrTradesEvent::accepts(j)
    ||| TradeEvent::accepts(j)
    ||| KlineEvent::accepts(j)
    ||| OrderBook::accepts(j)
    ||| DepthOrderBookEvent::accepts(j)
}

/// Whether `event` is the event that a document stands for. The forms are
/// tried in this order, and the first that the document has decides: a
/// document may have several, since members that a form does not name are
/// passed over. No form here asks for a part of what a later one asks for.
pub open spec fn decodes_to(j: JsonValue, event: WebsocketEvent) -> bool {
    if Vec::<DayTickerEvent>::accepts(j) {
        event matches WebsocketEvent::DayTickerAll(v) && v.holds(j)
    } else if BalanceUpdateEvent::accepts(j) {
        event matches WebsocketEvent::BalanceUpdate(v) && v.holds(j)
    } else if DayTickerEvent::accepts(j) {
        event matches WebsocketEvent::DayTicker(v) && v.holds(j)
    } else if BookTickerEvent::accepts(j) {
        event matches WebsocketEvent::BookTicker(v) && v.holds(j)
    } else if AccountUpdateEvent::accepts(j) {
        event matches WebsocketEvent::AccountUpdate(v) && v.holds(j)
    } else if OrderTradeEvent::accepts(j) {
        event matches WebsocketEvent::OrderTrade(v) && v.holds(j)
    } else if AggrTradesEvent::accepts(j) {
        event matches WebsocketEvent::AggrTrades(v) && v.holds(j)
    } else if TradeEvent::accepts(j) {
        event matches WebsocketEvent::Trade(v) && v.holds(j)
    } else if KlineEvent::accepts(j) {
        event matches WebsocketEvent::Kline(v) && v.holds(j)
    } else if OrderBook::accepts(j) {
        event matches WebsocketEvent::OrderBook(v) && v.holds(j)
    } else if DepthOrderBookEvent::accepts(j) {
        event matches WebsocketEvent::DepthOrderBook(v) && v.holds(j)
    } else {
        false
    }
}

/// Whether `r` is what decoding `document`, received as the text `raw`,
/// gives: the event of the document inside its envelopes, or
/// `UnrecognizedEvent` with the text where that document has the form of no
/// event or lies too deep.
pub open spec fn is_decoding(document: JsonValue, raw: Seq<char>, r: Result<WebsocketEvent, Error>)
    -> bool {
    match payload_of(document, MAX_ENVELOPES as nat) {
        Some(inner) => if is_recognized(inner) {
            r matches Ok(event) && decodes_to(inner, event)
        } else {
            r matches Err(Error::UnrecognizedEvent(text)) && text@ == raw
        },
        None => r matches Err(Error::UnrecognizedEvent(text)) && text@ == raw,
    }
}

/// Whether `r` is what handling the text `msg` gives: `Decode` where the
/// text is no JSON, and what decoding its document gives otherwise.
pub open spec fn is_handled(msg: Seq<char>, r: Result<WebsocketEvent, Error>) -> bool {
    match json_of_text(msg) {
        Some(document) => is_decoding(document, msg, r),
        None => r matches Err(Error::Decode),
    }
}

/// An event in an envelope of combined streams decodes as the event
/// itself: whatever decoding the inner document gives, decoding the
/// envelope gives too, as long as the inner document lies within fewer than
/// `MAX_ENVELOPES` envelopes of its own.
pub proof fn lemma_envelope_decodes_alike(
    envelope: JsonValue,
    inner: JsonValue,
    raw: Seq<char>,
    r: Result<WebsocketEvent, Error>,
)
    requires
        envelope.field("data"@) == Some(inner),
        payload_of(inner, (MAX_ENVELOPES - 1) as nat) is Some,
    ensures
        is_decoding(envelope, raw, r) == is_decoding(inner, raw, r),
{
    lemma_envelope_is_transparent(envelope, inner);
}

/// The event that a document without envelope stands for, if any.
pub fn event_of(j: &Json) -> (r: Option<WebsocketEvent>)
    ensures
        r is Some <==> is_recognized(j@),
        r matches Some(event) ==> decodes_to(j@, event),
{
    if let Some(v) = Vec::<DayTickerEvent>::from_json(j) {
        return Some(WebsocketEvent::DayTickerAll(v));
    }
    if let Some(v) = BalanceUpdateEvent::from_json(j) {
        return Some(WebsocketEvent::BalanceUpdate(v));
    }
    if let Some(v) = DayTickerEvent::from_json(j) {
        return Some(WebsocketEvent::DayTicker(v));
    }
    if let Some(v) = BookTickerEvent::from_json(j) {
        return Some(WebsocketEvent::BookTicker(v));
    }
    if let Some(v) = AccountUpdateEvent::from_json(j) {
        return Some(WebsocketEvent::AccountUpdate(v));
    }
    if let Some(v) = OrderTradeEvent::from_json(j) {
        return Some(WebsocketEvent::OrderTrade(v));
    }
    if let Some(v) = AggrTradesEvent::from_json(j) {
        return Some(WebsocketEvent::AggrTrades(v));
    }
    if let Some(v) = TradeEvent::from_json(j) {
        return Some(WebsocketEvent::Trade(v));
    }
    if let Some(v) = KlineEvent::from_json(j) {
        return Some(WebsocketEvent::Kline(v));
    }
    if let Some(v) = OrderBook::from_json(j) {
        return Some(WebsocketEvent::OrderBook(v));
    }
    if let Some(v) = DepthOrderBookEvent::from_json(j) {
        return Some(WebsocketEvent::DepthOrderBook(v));
    }
    None
}

/// Decodes a document that was received as the text `raw`.
pub fn decode(document: &Json, raw: &str) -> (r: Result<WebsocketEvent, Error>)
    ensures
        is_decoding(document@, raw@, r),
{
    match payload(document) {
        Some(inner) => match event_of(inner) {
            Some(event) => Ok(event),
            None => Err(Error::UnrecognizedEvent(String::from_str(raw))),
        },
        None => Err(Error::UnrecognizedEvent(String::from_str(raw))),
    }
}

/// A session of a stream. It holds no transport: the caller reads and
/// writes the frames, and asks the session what each read means.
#[derive(Clone, Debug, PartialEq, Eq)]
pub struct WebSockets {
    state: SessionState,
    url: String,
}

/// Whether `r` is a session that waits to be connected to `address`, or the
/// refusal of an address that is no URL.
pub open spec fn is_connecting(address: Seq<char>, r: Result<WebSockets, Error>) -> bool {
    if url_parses(address) {
        r matches Ok(session) && session.url() == address && session.state()
            == SessionState::Connecting
    } else {
        r matches Err(Error::InvalidUrl(text)) && text@ == address
    }
}

impl WebSockets {
    pub closed spec fn state(&self) -> SessionState {
        self.state
    }

    pub closed spec fn url(&self) -> Seq<char> {
        self.url@
    }

    /// Where the session stands.
    pub fn current_state(&self) -> (state: SessionState)
        ensures
            state == self.state(),
    {
        self.state
    }

    /// The address that the session connects to.
    pub fn address(&self) -> (url: &str)
        ensures
            url@ == self.url(),
    {
        self.url.as_str()
    }

    /// A session for the stream `subscription`.
    pub fn connect(subscription: &str) -> (r: Result<WebSockets, Error>)
        ensures
            is_connecting(stream_url(WebsocketAPI::Default, subscription@), r),
    {
        Self::connect_wss(WebsocketAPI::Default.params(subscription))
    }

    /// A session for the stream `subscription` at the host of `config`.
    pub fn connect_with_config(subscription: &str, config: &Config) -> (r: Result<
        WebSockets,
        Error,
    >)
        ensures
            is_connecting(config.ws_endpoint@ + "/"@ + subscription@, r),
    {
        Self::connect_wss(WebsocketAPI::Custom(config.ws_endpoint.clone()).params(subscription))
    }

    /// A session for the streams `endpoints`, combined.
    pub fn connect_multiple_streams(endpoints: &[String]) -> (r: Result<WebSockets, Error>)
        ensures
            is_connecting(
                stream_url(WebsocketAPI::MultiStream, joined(texts_of(endpoints@), "/"@)),
                r,
            ),
    {
        let streams = join(endpoints, "/");
        Self::connect_wss(WebsocketAPI::MultiStream.params(streams.as_str()))
    }

    /// A session for the stream at `wss`.
    pub fn connect_wss(wss: String) -> (r: Result<WebSockets, Error>)
        ensures
            is_connecting(wss@, r),
    {
        if is_url(wss.as_str()) {
            Ok(WebSockets { state: SessionState::Connecting, url: wss })
        } else {
            Err(Error::InvalidUrl(wss))
        }
    }

    /// The handshake has succeeded: a session that was connecting is open.
    pub fn opened(&mut self)
        ensures
            final(self).url() == old(self).url(),
            final(self).state() == if old(self).state() is Connecting {
                SessionState::Open
            } else {
                old(self).state()
            },
    {
        if self.state == SessionState::Connecting {
            self.state = SessionState::Open;
        }
    }

    /// The handshake has failed for `cause`: the session is closed for
    /// good.
    pub fn handshake_failed(&mut self, cause: String) -> (e: Error)
        ensures
            final(self).url() == old(self).url(),
            final(self).state() == SessionState::Closed,
            e matches Error::Handshake(c) && c == cause,
    {
        self.state = SessionState::Closed;
        Error::Handshake(cause)
    }

    /// Ends an open session: the close frame to send. The session does not
    /// wait for the server to answer it.
    pub fn disconnect(&mut self) -> (frame: Option<Frame>)
        ensures
            final(self).url() == old(self).url(),
            old(self).state() is Open ==> final(self).state() is Closing && (
            frame matches Some(Frame::Close(None))),
            !(old(self).state() is Open) ==> final(self).state() == old(self).state()
                && frame is None,
    {
        if self.state == SessionState::Open {
            self.state = SessionState::Closing;
            Some(Frame::Close(None))
        } else {
            None
        }
    }

    /// The event that the text of a frame stands for.
    pub fn handle_msg(msg: &str) -> (r: Result<WebsocketEvent, Error>)
        ensures
            is_handled(msg@, r),
    {
        match Json::parse(msg) {
            Some(document) => decode(&document, msg),
            None => Err(Error::Decode),
        }
    }

    /// Takes what one read of the stream gave: the frame to send first, if
    /// any, and the event that the read yields, if any.
    pub fn recv(&mut self, incoming: Incoming) -> (step: Step<WebsocketEvent>)
        ensures
            final(self).url() == old(self).url(),
            final(self).state() == state_after(old(self).state(), incoming),
            is_step(
                old(self).state(),
                incoming,
                step,
                |msg: Seq<char>, r: Result<WebsocketEvent, Error>| is_handled(msg, r),
            ),
    {
        let (state, turn) = take_turn(self.state, incoming);
        self.state = state;
        match turn {
            Turn::Decode(text) => match Self::handle_msg(text.as_str()) {
                Ok(event) => Step { reply: None, outcome: Ok(Some(event)) },
                Err(e) => Step { reply: None, outcome: Err(e) },
            },
            Turn::Idle(reply) => Step { reply, outcome: Ok(None) },
            Turn::Fail(e) => Step { reply: None, outcome: Err(e) },
        }
    }
}

} // verus!
