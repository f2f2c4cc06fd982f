//! The failures this crate reports. Every fallible operation returns one of
//! these; nothing is retried or swallowed.

use vstd::prelude::*;
use vstd::string::*;

use crate::json::member;
use crate::json::member_accepts;
use crate::json::member_holds;
use crate::json::FromJson;
use crate::json::Json;
use crate::json::JsonValue;

verus! {

/// The body of a rejected request, as the exchange sends it.
#[derive(Clone, Debug, PartialEq, Eq)]
pub struct BinanceContentError {
    pub code: i16,
    pub msg: String,
}

impl FromJson for BinanceContentError {
    /// An object with a 16-bit `code` and a text `msg`.
    open spec fn accepts(j: JsonValue) -> bool {
        &&& j is Object
        &&& member_accepts::<i16>(j, "code"@)
        &&& member_accepts::<String>(j, "msg"@)
    }

    open spec fn holds(&self, j: JsonValue) -> bool {
        &&& member_holds(self.code, j, "code"@)
        &&& member_holds(self.msg, j, "msg"@)
    }

    fn from_json(j: &Json) -> (r: Option<BinanceContentError>) {
        if !j.is_object() {
            return None;
        }
        let code = member::<i16>(j, "code")?;
        let msg = member::<String>(j, "msg")?;
        Some(BinanceContentError { code, msg })
    }
}

/// Why the server closed a stream: the code and the reason it gave.
#[derive(Clone, Debug, PartialEq, Eq)]
pub struct CloseFrame {
    pub code: u16,
    pub reason: String,
}

/// A failure of this crate. The kinds are kept apart so that a caller can
/// choose between backing off, giving up and connecting again without
/// reading texts.
#[derive(Clone, Debug, PartialEq, Eq)]
pub enum Error {
    /// Connecting, sending or receiving failed; carries the cause as text.
    Transport(String),
    /// The upgrade handshake of a stream failed; carries the cause as text.
    Handshake(String),
    /// A header cannot carry the value meant for it.
    InvalidHeader,
    /// The address of a stream is not a well-formed URL.
    InvalidUrl(String),
    /// HTTP 401.
    Unauthorized,
    /// HTTP 429: the caller should back off.
    RateLimited,
    /// HTTP 500.
    ServerError,
    /// HTTP 503.
    ServiceUnavailable,
    /// Any status without a meaning of its own.
    UnexpectedStatus(u16),
    /// HTTP 400: the exchange rejected the request and says why.
    Exchange(BinanceContentError),
    /// A body or a value did not have the expected form.
    Decode,
    /// A stream payload that matches no known event; carries the payload.
    UnrecognizedEvent(String),
    /// The trading rules were never fetched, or are too old.
    NoCache,
    /// The trading rules list no such symbol.
    SymbolNotFound,
    /// The asset is not among the account's balances.
    AssetNotFound,
    /// The clock cannot give a number of milliseconds since the epoch.
    Clock,
    /// The server closed the stream; carries what it said, if anything.
    Disconnected(Option<CloseFrame>),
    /// The stream ended without a frame.
    ConnectionClosed,
    /// A candlestick row is too short: the position and name of the value
    /// that is missing.
    KlineValueMissing(usize, String),
}

} // verus!
