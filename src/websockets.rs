//! The futures stream session: where it connects, how it classifies the
//! frames that arrive, and the decisions of its run loop. The caller owns
//! the transport: it opens the connection at the address that a `connect*`
//! call returns, reads frames and hands them over, decodes dispatched
//! payloads, runs the event handler and reports back.
use vstd::prelude::*;

use crate::error::StreamError;
use crate::events::{classify_payload, kind_of, EventKind};
use crate::json::{json_accepts, json_member_text, member_text, parse_json};
use crate::text::{join, joined, same_text, texts};

verus! {

#[verifier::external_type_specification]
#[verifier::external_body]
pub struct ExUrl(url::Url);

#[verifier::external_type_specification]
#[verifier::external_body]
pub struct ExParseError(url::ParseError);

/// Whether a text is an absolute URL.
pub uninterp spec fn url_accepts(text: Seq<char>) -> bool;

/// Relies on url::Url::parse: whether a text is accepted depends on the
/// text alone.
#[verifier::external_body]
fn parse_url(text: &str) -> (r: Result<url::Url, url::ParseError>)
    ensures
        r is Ok == url_accepts(text@),
{
    url::Url::parse(text)
}

/// Relies on `Display` for url::ParseError: a description of the failure.
#[verifier::external_body]
fn url_error_text(e: &url::ParseError) -> (r: String) {
    e.to_string()
}

/// Address of a single stream: the topic is appended.
pub const WEBSOCKET_URL: &'static str = "wss://fstream.binance.com/ws/";

/// Address of a combined stream: the topics are appended, separated by `/`.
pub const WEBSOCKET_MULTI_STREAM: &'static str = "wss://fstream.binance.com/stream?streams=";

/// Separator of topics in a combined-stream address.
pub const TOPIC_SEPARATOR: &'static str = "/";

/// Key whose presence marks a combined-stream envelope.
pub const STREAM: &'static str = "stream";

/// Key of the payload inside a combined-stream envelope.
pub const DATA: &'static str = "data";

/// The JSON text of a null value.
pub const NULL_TEXT: &'static str = "null";

/// Where a session connects when the compiled-in address is not wanted.
pub struct Config {
    /// Base address to which the topic is appended.
    pub ws_endpoint: String,
}

/// One read from the connection, as the caller's transport reports it.
pub enum Frame {
    Text(String),
    Binary,
    Ping,
    Pong,
    /// The server closed the connection, with this close payload.
    Close(String),
    /// The stream yielded nothing, without a close frame.
    Ended,
    /// Reading failed, for the reason given.
    Failed(String),
}

/// What the run loop does next, before it reads.
#[derive(Debug, Clone, Copy, PartialEq, Eq, Structural)]
pub enum LoopStep {
    /// The running flag is down: return success.
    Stop,
    /// Await the next frame from the connection.
    Read,
    /// There is no connection: skip this round.
    Idle,
}

/// What the run loop does with a frame that it read.
#[derive(Debug)]
pub enum FrameStep {
    /// Nothing to do: go on with the next round.
    Continue,
    /// Decode the payload as an event of this kind and hand it to the
    /// handler, then report with `finish_dispatch`.
    Dispatch(EventKind, String),
    /// Return this failure to the caller; the loop ends.
    Fail(StreamError),
}

/// The address of the single stream of a topic.
pub open spec fn single_endpoint(topic: Seq<char>) -> Seq<char> {
    WEBSOCKET_URL@ + topic
}

/// The address of the combined stream of several topics.
pub open spec fn multi_endpoint(topics: Seq<Seq<char>>) -> Seq<char> {
    WEBSOCKET_MULTI_STREAM@ + joined(topics, TOPIC_SEPARATOR@)
}

/// The address of a combined stream: the topics joined by `/` after the
/// combined-stream base.
pub fn multi_stream_endpoint(streams: &[String]) -> (r: String)
    ensures
        r@ == multi_endpoint(texts(streams@)),
{
    let topics = join(streams, TOPIC_SEPARATOR);
    String::from_str(WEBSOCKET_MULTI_STREAM).concat(topics.as_str())
}

/// Checks an address that a session is to connect to and hands it back; a
/// malformed one is a handshake failure.
fn checked_address(address: String) -> (r: Result<String, StreamError>)
    ensures
        r is Ok == url_accepts(address@),
        r matches Ok(a) ==> a@ == address@,
        r is Err ==> r matches Err(StreamError::Handshake(_)),
{
    match parse_url(address.as_str()) {
        Ok(_) => Ok(address),
        Err(e) => Err(StreamError::Handshake(url_error_text(&e))),
    }
}

/// A stream session: at most one live connection of type `C`, and the
/// topic or topics it was last asked to follow.
pub struct FuturesWebSockets<C> {
    /// The live connection, if any.
    pub socket: Option<C>,
    /// The last-used topic text.
    pub subscription: String,
}

impl<C> FuturesWebSockets<C> {
    /// A session without a connection.
    pub fn new() -> (r: Self)
        ensures
            r.socket is None,
            r.subscription@ == Seq::<char>::empty(),
    {
        FuturesWebSockets { socket: None, subscription: String::new() }
    }

    /// Prepares a connection to the single stream of a topic: records the
    /// topic and returns the checked address to open, `<base>/ws/<topic>`.
    pub fn connect(&mut self, subscription: &str) -> (r: Result<String, StreamError>)
        ensures
            final(self).subscription@ == subscription@,
            final(self).socket == old(self).socket,
            r is Ok == url_accepts(single_endpoint(subscription@)),
            r matches Ok(a) ==> a@ == single_endpoint(subscription@),
            r is Err ==> r matches Err(StreamError::Handshake(_)),
    {
        self.subscription = String::from_str(subscription);
        let address = String::from_str(WEBSOCKET_URL).concat(subscription);
        checked_address(address)
    }

    /// Prepares a connection to the combined stream of several topics:
    /// records the topics, joined by `/`, and returns the address to open,
    /// `<base>/stream?streams=<topic1>/<topic2>/...`.
    pub fn connect_multiple_streams(&mut self, streams: &[String]) -> (r: Result<
        String,
        StreamError,
    >)
        ensures
            final(self).subscription@ == joined(texts(streams@), TOPIC_SEPARATOR@),
            final(self).socket == old(self).socket,
            r is Ok == url_accepts(multi_endpoint(texts(streams@))),
            r matches Ok(a) ==> a@ == multi_endpoint(texts(streams@)),
            r is Err ==> r matches Err(StreamError::Handshake(_)),
    {
        self.subscription = join(streams, TOPIC_SEPARATOR);
        let address = multi_stream_endpoint(streams);
        checked_address(address)
    }

    /// Prepares a connection to the single stream of a topic under the
    /// configured base address: records the topic and returns the address
    /// to open, the base followed by the topic.
    pub fn connect_with_config(&mut self, subscription: &str, config: &Config) -> (r: Result<
        String,
        StreamError,
    >)
        ensures
            final(self).subscription@ == subscription@,
            final(self).socket == old(self).socket,
            r is Ok == url_accepts(config.ws_endpoint@ + subscription@),
            r matches Ok(a) ==> a@ == config.ws_endpoint@ + subscription@,
            r is Err ==> r matches Err(StreamError::Handshake(_)),
    {
        self.subscription = String::from_str(subscription);
        let address = config.ws_endpoint.clone().concat(subscription);
        checked_address(address)
    }

    /// Records the outcome of opening a connection: a live connection
    /// replaces whatever the session held; a failure, with the transport's
    /// description, leaves the session as it was.
    pub fn complete_handshake(&mut self, outcome: Result<C, String>) -> (r: Result<(), StreamError>)
        ensures
            final(self).subscription == old(self).subscription,
            outcome is Ok ==> r is Ok && final(self).socket == Some(outcome->Ok_0),
            outcome is Err ==> final(self).socket == old(self).socket && (r matches Err(
                StreamError::Handshake(d),
            ) && d@ == outcome->Err_0@),
    {
        match outcome {
            Ok(c) => {
                self.socket = Some(c);
                Ok(())
            },
            Err(d) => Err(StreamError::Handshake(d)),
        }
    }

    /// Whether closing is owed: with a live connection the caller sends a
    /// close handshake on it; without one this fails with `NotConnected`.
    pub fn disconnect(&self) -> (r: Result<(), StreamError>)
        ensures
            r is Ok <==> self.socket is Some,
            r is Err ==> r matches Err(StreamError::NotConnected),
    {
        match &self.socket {
            Some(_) => Ok(()),
            None => Err(StreamError::NotConnected),
        }
    }

    /// What one round of the run loop does before reading, given the
    /// running flag.
    pub fn poll(&self, running: bool) -> (r: LoopStep)
        ensures
            r == loop_step(self.socket is Some, running),
    {
        if !running {
            LoopStep::Stop
        } else if self.socket.is_some() {
            LoopStep::Read
        } else {
            LoopStep::Idle
        }
    }
}

/// The run loop's step before reading: stop when the flag is down, else
/// read when connected, else skip the round.
pub open spec fn loop_step(connected: bool, running: bool) -> LoopStep {
    if !running {
        LoopStep::Stop
    } else if connected {
        LoopStep::Read
    } else {
        LoopStep::Idle
    }
}

/// The payload that is classified: the envelope's `data` text where the
/// message has a `stream` key and a non-null `data` member, else the
/// message itself.
pub open spec fn frame_payload(msg: Seq<char>, has_stream: bool, data: Option<Seq<char>>) -> Seq<
    char,
> {
    if has_stream && data is Some {
        data->0
    } else {
        msg
    }
}

/// The text of a message's non-null `data` member, if it has one.
pub open spec fn envelope_data(msg: Seq<char>) -> Option<Seq<char>> {
    match json_member_text(msg, DATA@) {
        Some(d) => if d == NULL_TEXT@ {
            None
        } else {
            Some(d)
        },
        None => None,
    }
}

/// The payload of a message that is classified: the text of its `data`
/// member where it has a `stream` key and a non-null `data` member, else the
/// message itself.
pub open spec fn effective_payload(msg: Seq<char>) -> Seq<char> {
    frame_payload(msg, json_member_text(msg, STREAM@) is Some, envelope_data(msg))
}

/// A combined-stream envelope is classified by its `data` payload: the kind
/// is the one that classifying that payload alone, as a message without a
/// `stream` key, gives.
pub proof fn law_envelope_unwraps(msg: Seq<char>, data: Seq<char>)
    ensures
        frame_payload(msg, true, Some(data)) == data,
        kind_of(frame_payload(msg, true, Some(data))) == kind_of(frame_payload(data, false, None)),
{
}

/// With the running flag down the loop stops before it reads, connected or
/// not.
pub proof fn law_flag_down_stops(connected: bool)
    ensures
        loop_step(connected, false) == LoopStep::Stop,
{
}

/// Classifies a message given what its JSON document holds: whether it has
/// a `stream` key, and the text of its non-null `data` member. The payload
/// is unwrapped from the envelope, then its kind is found by marker.
pub fn classify_frame(msg: &str, has_stream: bool, data: Option<String>) -> (r: Result<
    (EventKind, String),
    StreamError,
>)
    ensures
        ({
            let p = frame_payload(msg@, has_stream, match data {
                Some(d) => Some(d@),
                None => None,
            });
            &&& kind_of(p) is Some ==> (r matches Ok((k, t)) && k == kind_of(p)->0 && t@ == p)
            &&& kind_of(p) is None ==> (r matches Err(StreamError::Unrecognized(t)) && t@ == p)
        }),
{
    let payload = match data {
        Some(d) => {
            if has_stream {
                d
            } else {
                String::from_str(msg)
            }
        },
        None => String::from_str(msg),
    };
    match classify_payload(payload.as_str()) {
        Ok(k) => Ok((k, payload)),
        Err(e) => Err(e),
    }
}

/// Parses a text frame and classifies it: a text that is no JSON document
/// fails with `Decode`; otherwise the effective payload (see
/// `effective_payload`) is classified by marker, and the kind is returned
/// with the payload to decode.
pub fn handle_msg(msg: &str) -> (r: Result<(EventKind, String), StreamError>)
    ensures
        !json_accepts(msg@) ==> (r matches Err(StreamError::Decode(t)) && t@ == msg@),
        json_accepts(msg@) ==> ({
            let p = effective_payload(msg@);
            &&& kind_of(p) is Some ==> (r matches Ok((k, t)) && k == kind_of(p)->0 && t@ == p)
            &&& kind_of(p) is None ==> (r matches Err(StreamError::Unrecognized(t)) && t@ == p)
        }),
{
    if let Err(_) = parse_json(msg) {
        return Err(StreamError::Decode(String::from_str(msg)));
    }
    let has_stream = member_text(msg, STREAM).is_some();
    let data = match member_text(msg, DATA) {
        Some(d) => {
            if same_text(d.as_str(), NULL_TEXT) {
                None
            } else {
                Some(d)
            }
        },
        None => None,
    };
    classify_frame(msg, has_stream, data)
}

/// What the run loop does with a frame: a text frame is classified and
/// dispatched, and a failure to classify it ends the loop as a stream error
/// that carries the frame; a close frame ends the loop as `Disconnected`; a
/// read failure ends it as `Transport`; anything else is passed over.
pub fn handle_frame(frame: Frame) -> (r: FrameStep)
    ensures
        match frame {
            Frame::Text(msg) => {
                let p = effective_payload(msg@);
                match r {
                    FrameStep::Dispatch(k, q) => json_accepts(msg@) && kind_of(p) == Some(k) && q@
                        == p,
                    FrameStep::Fail(StreamError::Stream(t, e)) => t@ == msg@ && match *e {
                        StreamError::Decode(d) => !json_accepts(msg@) && d@ == msg@,
                        StreamError::Unrecognized(q) => json_accepts(msg@) && kind_of(p) is None
                            && q@ == p,
                        _ => false,
                    },
                    _ => false,
                }
            },
            Frame::Close(payload) => r matches FrameStep::Fail(StreamError::Disconnected(p))
                && p@ == payload@,
            Frame::Failed(reason) => r matches FrameStep::Fail(StreamError::Transport(d)) && d@
                == reason@,
            _ => r is Continue,
        },
{
    match frame {
        Frame::Text(msg) => match handle_msg(msg.as_str()) {
            Ok((k, p)) => FrameStep::Dispatch(k, p),
            Err(e) => FrameStep::Fail(StreamError::Stream(msg, Box::new(e))),
        },
        Frame::Close(payload) => FrameStep::Fail(StreamError::Disconnected(payload)),
        Frame::Failed(reason) => FrameStep::Fail(StreamError::Transport(reason)),
        Frame::Binary => FrameStep::Continue,
        Frame::Ping => FrameStep::Continue,
        Frame::Pong => FrameStep::Continue,
        Frame::Ended => FrameStep::Continue,
    }
}

/// Ends the handling of a dispatched frame, given how decoding its payload
/// and running the handler went (`Decode` where the payload did not have
/// the kind's shape, else the handler's own result). An expired listen key,
/// whether announced by the server's frame or reported by the handler,
/// ends the loop as `ListenKeyExpired`; any other failure ends it as a
/// stream error that carries the frame; otherwise the loop goes on.
pub fn finish_dispatch(msg: &str, kind: EventKind, outcome: Result<(), StreamError>) -> (r: Result<
    (),
    StreamError,
>)
    ensures
        match outcome {
            Ok(()) => if kind == EventKind::ListenKeyExpired {
                r matches Err(StreamError::ListenKeyExpired)
            } else {
                r is Ok
            },
            Err(StreamError::ListenKeyExpired) => r matches Err(StreamError::ListenKeyExpired),
            Err(StreamError::Decode(d)) => r matches Err(StreamError::Stream(t, e)) && t@ == msg@
                && *e == StreamError::Decode(d),
            Err(e) => if kind == EventKind::ListenKeyExpired {
                r matches Err(StreamError::ListenKeyExpired)
            } else {
                r matches Err(StreamError::Stream(t, c)) && t@ == msg@ && *c == e
            },
        },
{
    match outcome {
        Ok(()) => {
            if kind == EventKind::ListenKeyExpired {
                Err(StreamError::ListenKeyExpired)
            } else {
                Ok(())
            }
        },
        Err(StreamError::ListenKeyExpired) => Err(StreamError::ListenKeyExpired),
        Err(StreamError::Decode(d)) => Err(
            StreamError::Stream(String::from_str(msg), Box::new(StreamError::Decode(d))),
        ),
        Err(e) => {
            if kind == EventKind::ListenKeyExpired {
                Err(StreamError::ListenKeyExpired)
            } else {
                Err(StreamError::Stream(String::from_str(msg), Box::new(e)))
            }
        },
    }
}

} // verus!
