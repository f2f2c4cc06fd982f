//! What the stream sessions of all markets share: frames, the course of a
//! session, the addresses of streams, and the envelope of combined streams.

use vstd::prelude::*;
use vstd::string::*;

use crate::errors::CloseFrame;
use crate::errors::Error;
use crate::json::Json;
use crate::json::JsonValue;

verus! {

/// A frame of a stream, received or to be sent.
#[derive(Clone, Debug, PartialEq, Eq)]
pub enum Frame {
    Text(String),
    Binary(Vec<u8>),
    Ping(Vec<u8>),
    Pong(Vec<u8>),
    Close(Option<CloseFrame>),
    /// A frame in its raw form, which carries nothing for this crate.
    Raw,
}

/// What one read of the stream gave.
#[derive(Clone, Debug, PartialEq, Eq)]
pub enum Incoming {
    Frame(Frame),
    /// The read failed; carries the cause as text.
    Failed(String),
    /// The stream ended without a frame.
    End,
}

/// Where a session stands.
#[derive(Clone, Copy, Debug, PartialEq, Eq, Structural)]
pub enum SessionState {
    Connecting,
    Open,
    Closing,
    Closed,
}

impl SessionState {
    /// Whether frames are read in this state.
    pub open spec fn reads(self) -> bool {
        self is Open || self is Closing
    }
}

/// What a session does with one read.
#[derive(Clone, Debug, PartialEq, Eq)]
pub enum Turn {
    /// Decode this text and yield the event.
    Decode(String),
    /// Yield nothing; first send the frame, if there is one.
    Idle(Option<Frame>),
    /// The session is over, or was not open: report the failure.
    Fail(Error),
}

/// The state after a read: a close frame, a failed read and the end of the
/// stream end the session; every other read leaves it as it is.
pub open spec fn state_after(state: SessionState, incoming: Incoming) -> SessionState {
    if !state.reads() {
        state
    } else {
        match incoming {
            Incoming::Frame(Frame::Close(_)) => SessionState::Closed,
            Incoming::Failed(_) => SessionState::Closed,
            Incoming::End => SessionState::Closed,
            _ => state,
        }
    }
}

/// Whether `turn` is what a session in `state` does with `incoming`: a text
/// is decoded; a ping is answered with a pong of the same payload and
/// yields nothing; pongs, binary and raw frames yield nothing; a close
/// frame, a failed read and the end of the stream are failures, as is any
/// read in a state in which none is due.
pub open spec fn is_turn(state: SessionState, incoming: Incoming, turn: Turn) -> bool {
    if !state.reads() {
        turn matches Turn::Fail(Error::ConnectionClosed)
    } else {
        match incoming {
            Incoming::Frame(Frame::Text(text)) => (turn matches Turn::Decode(t) && t@ == text@),
            Incoming::Frame(Frame::Ping(payload)) => (turn matches Turn::Idle(
                Some(Frame::Pong(echo)),
            ) && echo@ == payload@),
            Incoming::Frame(Frame::Pong(_)) => (turn matches Turn::Idle(None)),
            Incoming::Frame(Frame::Binary(_)) => (turn matches Turn::Idle(None)),
            Incoming::Frame(Frame::Raw) => (turn matches Turn::Idle(None)),
            Incoming::Frame(Frame::Close(said)) => (turn matches Turn::Fail(
                Error::Disconnected(reason),
            ) && reason == said),
            Incoming::Failed(cause) => (turn matches Turn::Fail(Error::Transport(c)) && c@
                == cause@),
            Incoming::End => (turn matches Turn::Fail(Error::ConnectionClosed)),
        }
    }
}

/// What a session in `state` does with `incoming`, and the state it is in
/// afterwards.
pub fn take_turn(state: SessionState, incoming: Incoming) -> (r: (SessionState, Turn))
    ensures
        r.0 == state_after(state, incoming),
        is_turn(state, incoming, r.1),
{
    match state {
        SessionState::Connecting => (state, Turn::Fail(Error::ConnectionClosed)),
        SessionState::Closed => (state, Turn::Fail(Error::ConnectionClosed)),
        _ => match incoming {
            Incoming::Frame(Frame::Text(text)) => (state, Turn::Decode(text)),
            Incoming::Frame(Frame::Ping(payload)) => (
                state,
                Turn::Idle(Some(Frame::Pong(payload))),
            ),
            Incoming::Frame(Frame::Pong(_)) => (state, Turn::Idle(None)),
            Incoming::Frame(Frame::Binary(_)) => (state, Turn::Idle(None)),
            Incoming::Frame(Frame::Raw) => (state, Turn::Idle(None)),
            Incoming::Frame(Frame::Close(said)) => (
                SessionState::Closed,
                Turn::Fail(Error::Disconnected(said)),
            ),
            Incoming::Failed(cause) => (SessionState::Closed, Turn::Fail(Error::Transport(cause))),
            Incoming::End => (SessionState::Closed, Turn::Fail(Error::ConnectionClosed)),
        },
    }
}

/// Whether `url::Url::parse` accepts a text.
pub uninterp spec fn url_parses(text: Seq<char>) -> bool;

/// Asks `url::Url::parse` whether a text is an absolute URL. The answer is a
/// function of the text alone, named `url_parses`.
#[verifier::external_body]
fn parses_as_url(text: &str) -> (ok: bool)
    ensures
        ok == url_parses(text@),
{
    url::Url::parse(text).is_ok()
}

/// Whether `text` can be the address of a stream.
pub fn is_url(text: &str) -> (ok: bool)
    ensures
        ok == url_parses(text@),
{
    parses_as_url(text)
}

/// The texts `parts`, with `separator` between each two of them.
pub open spec fn joined(parts: Seq<Seq<char>>, separator: Seq<char>) -> Seq<char>
    decreases parts.len(),
{
    if parts.len() == 0 {
        Seq::empty()
    } else if parts.len() == 1 {
        parts[0]
    } else {
        joined(parts.drop_last(), separator) + separator + parts.last()
    }
}

/// The texts of a list of strings.
pub open spec fn texts_of(parts: Seq<String>) -> Seq<Seq<char>> {
    parts.map_values(|s: String| s@)
}

/// Joins `parts` with `separator` between each two of them.
pub fn join(parts: &[String], separator: &str) -> (r: String)
    ensures
        r@ == joined(texts_of(parts@), separator@),
{
    let n = parts.len();
    let mut out = String::new();
    let mut i: usize = 0;
    assert(texts_of(parts@).take(0) =~= Seq::<Seq<char>>::empty());
    while i < n
        invariant
            n == parts@.len(),
            i <= n,
            out@ == joined(texts_of(parts@).take(i as int), separator@),
        decreases n - i,
    {
        let ghost next = texts_of(parts@).take(i + 1);
        assert(next.drop_last() =~= texts_of(parts@).take(i as int));
        assert(next.last() == parts@[i as int]@);
        if i > 0 {
            out.append(separator);
        }
        out.append(parts[i].as_str());
        assert(out@ =~= joined(next, separator@));
        i += 1;
    }
    assert(texts_of(parts@).take(n as int) =~= texts_of(parts@));
    out
}

/// How many envelopes of combined streams are opened around one event.
pub const MAX_ENVELOPES: usize = 4;

/// The document inside the envelopes around `j`, of which at most `depth`
/// are opened: a document with a member `data` is an envelope around that
/// member. `None` where more envelopes are nested.
pub open spec fn payload_of(j: JsonValue, depth: nat) -> Option<JsonValue>
    decreases depth,
{
    match j.field("data"@) {
        Some(inner) => if depth == 0 {
            None
        } else {
            payload_of(inner, (depth - 1) as nat)
        },
        None => Some(j),
    }
}

/// The document inside the envelopes around `j`, of which at most
/// `MAX_ENVELOPES` are opened.
pub fn payload(j: &Json) -> (r: Option<&Json>)
    ensures
        r is Some <==> payload_of(j@, MAX_ENVELOPES as nat) is Some,
        r matches Some(inner) ==> payload_of(j@, MAX_ENVELOPES as nat) == Some(inner@),
{
    let mut current = j;
    let mut opened: usize = 0;
    loop
        invariant
            opened <= MAX_ENVELOPES,
            payload_of(j@, MAX_ENVELOPES as nat) == payload_of(
                current@,
                (MAX_ENVELOPES - opened) as nat,
            ),
        decreases MAX_ENVELOPES - opened,
    {
        match current.get("data") {
            Some(inner) => {
                if opened == MAX_ENVELOPES {
                    return None;
                }
                current = inner;
                opened += 1;
            },
            None => {
                return Some(current);
            },
        }
    }
}

/// A document that lies within `depth` envelopes lies within any larger
/// number of them, and is the same document.
pub proof fn lemma_payload_within(j: JsonValue, depth: nat, more: nat)
    requires
        payload_of(j, depth) is Some,
        depth <= more,
    ensures
        payload_of(j, more) == payload_of(j, depth),
    decreases depth,
{
    match j.field("data"@) {
        Some(inner) => {
            lemma_payload_within(inner, (depth - 1) as nat, (more - 1) as nat);
        },
        None => {},
    }
}

/// An envelope is transparent: the document in the member `data` of an
/// envelope, and the envelope itself, hold the same payload, as long as
/// the document lies within fewer than `MAX_ENVELOPES` envelopes of its
/// own.
pub proof fn lemma_envelope_is_transparent(envelope: JsonValue, inner: JsonValue)
    requires
        envelope.field("data"@) == Some(inner),
        payload_of(inner, (MAX_ENVELOPES - 1) as nat) is Some,
    ensures
        payload_of(envelope, MAX_ENVELOPES as nat) == payload_of(inner, MAX_ENVELOPES as nat),
{
    lemma_payload_within(inner, (MAX_ENVELOPES - 1) as nat, MAX_ENVELOPES as nat);
}

/// What a session hands back for one read: the frame to send first, if any,
/// and the event that the read yields, if any.
#[derive(Debug, PartialEq, Eq)]
pub struct Step<E> {
    pub reply: Option<Frame>,
    pub outcome: Result<Option<E>, Error>,
}

/// Whether `step` is what a session in `state` hands back for `incoming`,
/// where `handled(text, r)` says that `r` is what decoding `text` gives. A
/// text frame yields what decoding gives; the rest is as `is_turn` says, and
/// only a ping has a reply.
pub open spec fn is_step<E>(
    state: SessionState,
    incoming: Incoming,
    step: Step<E>,
    handled: spec_fn(Seq<char>, Result<E, Error>) -> bool,
) -> bool {
    if state.reads() && incoming is Frame && incoming->Frame_0 is Text {
        let text = incoming->Frame_0->Text_0;
        &&& step.reply is None
        &&& match step.outcome {
            Ok(Some(event)) => handled(text@, Ok(event)),
            Ok(None) => false,
            Err(e) => handled(text@, Err(e)),
        }
    } else {
        match step.outcome {
            Ok(Some(_)) => false,
            Ok(None) => is_turn(state, incoming, Turn::Idle(step.reply)),
            Err(e) => step.reply is None && is_turn(state, incoming, Turn::Fail(e)),
        }
    }
}

/// A ping never yields an event: in a session that reads, it yields nothing
/// and is answered with exactly one pong, which carries the ping's payload.
pub proof fn lemma_ping_is_answered<E>(
    state: SessionState,
    payload: Vec<u8>,
    step: Step<E>,
    handled: spec_fn(Seq<char>, Result<E, Error>) -> bool,
)
    requires
        state.reads(),
        is_step(state, Incoming::Frame(Frame::Ping(payload)), step, handled),
    ensures
        step.outcome matches Ok(None),
        step.reply matches Some(Frame::Pong(echo)) && echo@ == payload@,
{
}

} // verus!
