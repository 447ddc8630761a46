//! The Agent Socket wire protocol.
//!
//! Reads what comes off an open WebSocket as [`Event`]s and writes outgoing
//! frames. The connection itself is not touched here: a caller hands in
//! [`Frame`]s and sends the texts it gets back.

use crate::errors::{Error, ErrorView, ServerError, ServerErrorView};
use crate::json::{
    get, json_parsed, json_text, json_view, member_str, null, null_value, object, parse, print,
    string, Json,
};
use crate::text::{decimal, decimal_text, opt_text, or_empty, text_or_empty};
use serde_json::{Error as JsonError, Value};
use vstd::prelude::*;
use vstd::string::*;
use vstd::utf8::{decode_utf8, valid_utf8};

verus! {

/// One frame read off the WebSocket.
#[derive(Debug)]
pub enum Frame {
    Text(String),
    Binary(Vec<u8>),
    Close(Option<CloseFrame>),
    Ping,
    Pong,
    /// A frame that is not a whole message.
    Raw,
}

/// Code and reason of a close frame.
#[derive(Debug)]
pub struct CloseFrame {
    pub code: u16,
    pub reason: String,
}

/// A [`Frame`] with its texts as characters and its binary data as bytes.
pub enum FrameView {
    Text(Seq<char>),
    Binary(Seq<u8>),
    Close(Option<CloseFrameView>),
    Ping,
    Pong,
    Raw,
}

pub struct CloseFrameView {
    pub code: u16,
    pub reason: Seq<char>,
}

impl View for CloseFrame {
    type V = CloseFrameView;

    open spec fn view(&self) -> CloseFrameView {
        CloseFrameView { code: self.code, reason: self.reason@ }
    }
}

pub open spec fn close_frame_view(c: Option<CloseFrame>) -> Option<CloseFrameView> {
    match c {
        Some(c) => Some(c@),
        None => None,
    }
}

impl View for Frame {
    type V = FrameView;

    open spec fn view(&self) -> FrameView {
        match self {
            Frame::Text(t) => FrameView::Text(t@),
            Frame::Binary(b) => FrameView::Binary(b@),
            Frame::Close(c) => FrameView::Close(close_frame_view(*c)),
            Frame::Ping => FrameView::Ping,
            Frame::Pong => FrameView::Pong,
            Frame::Raw => FrameView::Raw,
        }
    }
}

/// An event read off the WebSocket.
#[derive(Debug)]
pub enum Event {
    /// Incoming message from another socket or channel.
    Message { from: String, data: Value },
    /// Server-sent error frame (mid-connection, not fatal by itself).
    ServerError(ServerError),
    /// Non-fatal decode failure on a frame.
    Decode(Error),
    /// Connection closed cleanly.
    Closed,
    /// Connection closed abnormally.
    ConnectionLost(Error),
}

/// An [`Event`] with its texts as characters.
pub enum EventView {
    Message { from: Seq<char>, data: Value },
    ServerError(ServerErrorView),
    Decode(ErrorView),
    Closed,
    ConnectionLost(ErrorView),
}

impl View for Event {
    type V = EventView;

    open spec fn view(&self) -> EventView {
        match self {
            Event::Message { from, data } => EventView::Message { from: from@, data: *data },
            Event::ServerError(e) => EventView::ServerError(e@),
            Event::Decode(e) => EventView::Decode(e@),
            Event::Closed => EventView::Closed,
            Event::ConnectionLost(e) => EventView::ConnectionLost(e@),
        }
    }
}

/// The members of a server frame that decide what it says: its strings by
/// name, and its payload.
#[derive(Debug)]
pub struct Envelope {
    /// The member `type`.
    pub kind: Option<String>,
    pub code: Option<String>,
    pub message: Option<String>,
    pub from: Option<String>,
    pub data: Option<Value>,
}

/// An [`Envelope`] with its texts as characters.
pub struct EnvelopeView {
    pub kind: Option<Seq<char>>,
    pub code: Option<Seq<char>>,
    pub message: Option<Seq<char>>,
    pub from: Option<Seq<char>>,
    pub data: Option<Value>,
}

impl View for Envelope {
    type V = EnvelopeView;

    open spec fn view(&self) -> EnvelopeView {
        EnvelopeView {
            kind: opt_text(self.kind),
            code: opt_text(self.code),
            message: opt_text(self.message),
            from: opt_text(self.from),
            data: self.data,
        }
    }
}

/// The envelope of a JSON value. Members that are no strings count as absent.
pub open spec fn envelope_of(v: Json) -> EnvelopeView {
    EnvelopeView {
        kind: v.member_text("type"@),
        code: v.member_text("code"@),
        message: v.member_text("message"@),
        from: v.member_text("from"@),
        data: v.member("data"@),
    }
}

/// What a frame with the members `m` says.
///
/// A frame of type `error` is a server error without a status. Any other frame
/// is a message, which must name its sender; a frame without `data` carries
/// `null`.
pub open spec fn envelope_event(m: EnvelopeView) -> EventView {
    if m.kind == Some("error"@) {
        EventView::ServerError(
            ServerErrorView {
                code: text_or_empty(m.code),
                message: text_or_empty(m.message),
                status: 0,
            },
        )
    } else if text_or_empty(m.from).len() == 0 {
        EventView::Decode(ErrorView::Transport("server frame missing 'from' field"@))
    } else {
        EventView::Message {
            from: text_or_empty(m.from),
            data: match m.data {
                Some(d) => d,
                None => null_value(),
            },
        }
    }
}

/// What a frame says whose text was parsed with this outcome.
pub open spec fn parsed_event(parsed: Result<Value, JsonError>) -> EventView {
    match parsed {
        Ok(v) => envelope_event(envelope_of(json_view(v))),
        Err(e) => EventView::Decode(ErrorView::Serde(e)),
    }
}

/// What a close frame says: codes 1000 and 1001, and a close without a frame,
/// are clean.
pub open spec fn close_event(frame: Option<CloseFrameView>) -> EventView {
    match frame {
        Some(f) => if f.code == 1000 || f.code == 1001 {
            EventView::Closed
        } else {
            EventView::ConnectionLost(
                ErrorView::Transport(
                    "connection closed: "@ + decimal_text(f.code as nat) + " "@ + f.reason,
                ),
            )
        },
        None => EventView::Closed,
    }
}

/// What a frame says, if anything.
pub open spec fn frame_event(frame: FrameView) -> Option<EventView> {
    match frame {
        FrameView::Text(t) => Some(parsed_event(json_parsed(t))),
        FrameView::Binary(b) => if valid_utf8(b) {
            Some(parsed_event(json_parsed(decode_utf8(b))))
        } else {
            Some(
                EventView::Decode(
                    ErrorView::Transport("non-utf8 binary frame: "@ + utf8_error_text(b)),
                ),
            )
        },
        FrameView::Close(c) => Some(close_event(c)),
        FrameView::Ping | FrameView::Pong | FrameView::Raw => None,
    }
}

/// The message that the `std::str::Utf8Error` for these bytes displays.
pub uninterp spec fn utf8_error_text(bytes: Seq<u8>) -> Seq<char>;

/// `std::str::from_utf8`: the text of bytes that are valid UTF-8. For other
/// bytes it fails, and the message of that failure is a function of the bytes,
/// named [`utf8_error_text`].
#[verifier::external_body]
fn text_of_utf8(bytes: &[u8]) -> (r: Result<String, String>)
    ensures
        match r {
            Ok(text) => valid_utf8(bytes@) && text@ == decode_utf8(bytes@),
            Err(message) => !valid_utf8(bytes@) && message@ == utf8_error_text(bytes@),
        },
{
    match std::str::from_utf8(bytes) {
        Ok(text) => Ok(text.to_string()),
        Err(e) => Err(e.to_string()),
    }
}

fn owned(s: Option<&str>) -> (r: Option<String>)
    ensures
        match s {
            Some(s) => opt_text(r) == Some(s@),
            None => r is None,
        },
{
    match s {
        Some(s) => Some(s.to_owned()),
        None => None,
    }
}

impl Envelope {
    /// Picks the members out of a parsed frame.
    pub fn read(parsed: &Value) -> (r: Self)
        ensures
            r@ == envelope_of(json_view(*parsed)),
    {
        let data = match get(parsed, "data") {
            Some(d) => Some(d.clone()),
            None => None,
        };
        Envelope {
            kind: owned(member_str(parsed, "type")),
            code: owned(member_str(parsed, "code")),
            message: owned(member_str(parsed, "message")),
            from: owned(member_str(parsed, "from")),
            data,
        }
    }

    /// What the frame says.
    pub fn into_event(self) -> (r: Event)
        ensures
            r@ == envelope_event(self@),
    {
        let is_error = match &self.kind {
            Some(kind) => *kind == "error".to_owned(),
            None => false,
        };
        if is_error {
            return Event::ServerError(
                ServerError::new(or_empty(self.code), or_empty(self.message), 0),
            );
        }
        let from = or_empty(self.from);
        if from.as_str().is_empty() {
            return Event::Decode(
                Error::Transport("server frame missing 'from' field".to_owned()),
            );
        }
        let data = match self.data {
            Some(d) => d,
            None => null(),
        };
        Event::Message { from, data }
    }
}

/// Reads the outcome of parsing a frame's text.
pub fn decode_parsed(parsed: Result<Value, JsonError>) -> (r: Event)
    ensures
        r@ == parsed_event(parsed),
{
    match parsed {
        Ok(v) => Envelope::read(&v).into_event(),
        Err(e) => Event::Decode(Error::Serde(e)),
    }
}

/// Reads the text of a frame.
pub fn decode_payload(text: &str) -> (r: Event)
    ensures
        r@ == parsed_event(json_parsed(text@)),
        r@ matches EventView::Decode(e) ==> e.has_fixed_text(),
{
    decode_parsed(parse(text))
}

/// Reads a close frame.
pub fn map_close(frame: Option<CloseFrame>) -> (r: Event)
    ensures
        r@ == close_event(close_frame_view(frame)),
{
    match frame {
        Some(f) => {
            if f.code == 1000 || f.code == 1001 {
                Event::Closed
            } else {
                let mut text = "connection closed: ".to_owned();
                text.append(decimal(f.code).as_str());
                text.append(" ");
                text.append(f.reason.as_str());
                Event::ConnectionLost(Error::Transport(text))
            }
        },
        None => Event::Closed,
    }
}

/// Parse one incoming frame into an [`Event`].
pub fn decode_frame(frame: Frame) -> (r: Option<Event>)
    ensures
        match r {
            Some(e) => frame_event(frame@) == Some(e@),
            None => frame_event(frame@) is None,
        },
        r matches Some(Event::Decode(e)) ==> e@.has_fixed_text(),
{
    match frame {
        Frame::Text(text) => Some(decode_payload(text.as_str())),
        Frame::Binary(bytes) => match text_of_utf8(bytes.as_slice()) {
            Ok(text) => Some(decode_payload(text.as_str())),
            Err(message) => Some(
                Event::Decode(
                    Error::Transport("non-utf8 binary frame: ".to_owned().concat(message.as_str())),
                ),
            ),
        },
        Frame::Close(frame) => Some(map_close(frame)),
        Frame::Ping | Frame::Pong | Frame::Raw => None,
    }
}

/// Whether `frame` is the outgoing frame that brings `data` to `to`: an object
/// with these two members and no other.
pub open spec fn is_outgoing(frame: Value, to: Seq<char>, data: Value) -> bool {
    match json_view(frame) {
        Json::Object(members) => {
            &&& members.dom() == set!["to"@, "data"@]
            &&& json_view(members["to"@]) == Json::Text(to)
            &&& members["data"@] == data
        },
        _ => false,
    }
}

/// Whether `text` is the JSON text of an outgoing frame that brings `data` to
/// `to`.
pub open spec fn is_outgoing_text(text: Seq<char>, to: Seq<char>, data: Value) -> bool {
    exists|frame: Value| #[trigger] is_outgoing(frame, to, data) && text == json_text(frame)
}

/// The `{to, data}` frame that brings `data` to `to`.
pub fn outgoing_frame(to: &str, data: &Value) -> (r: Value)
    ensures
        is_outgoing(r, to@, *data),
{
    let mut members: serde_json::Map<String, Value> = serde_json::Map::<String, Value>::new();
    proof {
        reveal_strlit("to");
        reveal_strlit("data");
        assert("to"@.len() != "data"@.len());
    }
    members.insert("to".to_owned(), string(to.to_owned()));
    members.insert("data".to_owned(), data.clone());
    proof {
        assert(crate::json::json_members(members).dom() =~= set!["to"@, "data"@]);
    }
    object(members)
}

/// A message on its way out: what to bring to whom.
#[derive(Debug)]
pub struct Outgoing {
    pub to: String,
    pub data: Value,
}

/// An [`Outgoing`] with its text as characters.
pub struct OutgoingView {
    pub to: Seq<char>,
    pub data: Value,
}

impl View for Outgoing {
    type V = OutgoingView;

    open spec fn view(&self) -> OutgoingView {
        OutgoingView { to: self.to@, data: self.data }
    }
}

impl Clone for Outgoing {
    fn clone(&self) -> (r: Self)
        ensures
            r == *self,
    {
        Outgoing { to: self.to.clone(), data: self.data.clone() }
    }
}

impl Outgoing {
    /// The message that brings a payload to `to`, once the payload was made
    /// into JSON, or the error where it could not be.
    pub fn new(to: &str, payload: Result<Value, JsonError>) -> (r: Result<Self, Error>)
        ensures
            match payload {
                Ok(data) => r matches Ok(m) && m@ == (OutgoingView { to: to@, data }),
                Err(e) => r matches Err(x) && x@ == ErrorView::Serde(e),
            },
    {
        match payload {
            Ok(data) => Ok(Outgoing { to: to.to_owned(), data }),
            Err(e) => Err(Error::Serde(e)),
        }
    }

    /// The text of the frame that carries the message.
    pub fn frame_text(&self) -> (r: Result<String, Error>)
        ensures
            r matches Ok(text) && is_outgoing_text(text@, self@.to, self@.data),
    {
        send_frame(self.to.as_str(), &self.data)
    }
}

/// Serialize `data` into the text of an outgoing `{to, data}` frame.
pub fn send_frame(to: &str, data: &Value) -> (r: Result<String, Error>)
    ensures
        r matches Ok(text) && is_outgoing_text(text@, to@, *data),
{
    let frame = outgoing_frame(to, data);
    match print(&frame) {
        Ok(text) => Ok(text),
        Err(e) => Err(Error::Serde(e)),
    }
}

/// What the sender of a frame is told once the connection took it, or failed
/// with the given message.
pub fn frame_sent(outcome: Result<(), String>) -> (r: Result<(), Error>)
    ensures
        match outcome {
            Ok(_) => r is Ok,
            Err(message) => r matches Err(e) && e@ == ErrorView::Transport(message@),
        },
{
    match outcome {
        Ok(_) => Ok(()),
        Err(message) => Err(Error::Transport(message)),
    }
}

} // verus!
