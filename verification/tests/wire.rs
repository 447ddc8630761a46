//! The wire protocol: incoming frames, outgoing frames, messages, and the
//! handshake request.

use agent_socket::dial::{dial_request, dial_url, map_dial_error, DialFailure, ServerErrorBody};
use agent_socket::errors::{Error, ServerError};
use agent_socket::message::Message;
use agent_socket::ws::{
    decode_frame, decode_parsed, decode_payload, frame_sent, map_close, outgoing_frame,
    send_frame, CloseFrame, Envelope, Event, Frame,
};
use agent_socket::{connect, Config};
use serde_json::Value;

fn value(text: &str) -> Value {
    serde_json::from_str(text).unwrap()
}

fn text_event(text: &str) -> Event {
    decode_frame(Frame::Text(text.to_string())).expect("a text frame says something")
}

#[test]
fn message_frame() {
    match text_event(r#"{"from":"as:acme/a","data":{"text":"hi"}}"#) {
        Event::Message { from, data } => {
            assert_eq!(from, "as:acme/a");
            assert_eq!(data, value(r#"{"text":"hi"}"#));
        }
        other => panic!("want a message, got {:?}", other),
    }
}

#[test]
fn message_frame_without_data_carries_null() {
    match text_event(r#"{"from":"ch:acme/alerts"}"#) {
        Event::Message { from, data } => {
            assert_eq!(from, "ch:acme/alerts");
            assert_eq!(data, Value::Null);
        }
        other => panic!("want a message, got {:?}", other),
    }
}

#[test]
fn message_of_another_type_is_a_message() {
    assert!(matches!(
        text_event(r#"{"type":"message","from":"as:a/b","data":1}"#),
        Event::Message { .. }
    ));
    assert!(matches!(
        text_event(r#"{"type":1,"from":"as:a/b","data":1}"#),
        Event::Message { .. }
    ));
}

#[test]
fn error_frame() {
    match text_event(r#"{"type":"error","code":"E1","message":"nope","from":"as:a/b"}"#) {
        Event::ServerError(e) => {
            assert_eq!(e.code, "E1");
            assert_eq!(e.message, "nope");
            assert_eq!(e.status, 0);
        }
        other => panic!("want a server error, got {:?}", other),
    }
}

#[test]
fn error_frame_without_members() {
    match text_event(r#"{"type":"error","code":7}"#) {
        Event::ServerError(e) => {
            assert_eq!(e.code, "");
            assert_eq!(e.message, "");
            assert_eq!(e.to_string(), "[unknown] ");
        }
        other => panic!("want a server error, got {:?}", other),
    }
}

#[test]
fn frame_without_sender() {
    for text in [r#"{"data":1}"#, r#"{"from":"","data":1}"#, r#"{"from":3}"#, "[1]", "null", "3"] {
        match text_event(text) {
            Event::Decode(Error::Transport(t)) => {
                assert_eq!(t, "server frame missing 'from' field");
            }
            other => panic!("want a decode failure, got {:?}", other),
        }
    }
}

#[test]
fn frame_that_is_no_json() {
    match text_event("{oops") {
        Event::Decode(Error::Serde(e)) => {
            let want = serde_json::from_str::<Value>("{oops").unwrap_err().to_string();
            assert_eq!(e.to_string(), want);
            assert_eq!(Error::Serde(e).to_string(), format!("serialization: {}", want));
        }
        other => panic!("want a decode failure, got {:?}", other),
    }
    assert!(matches!(decode_payload(""), Event::Decode(Error::Serde(_))));
}

#[test]
fn parse_outcomes_are_read_alike() {
    assert!(matches!(
        decode_parsed(Ok(value(r#"{"from":"as:a/b"}"#))),
        Event::Message { .. }
    ));
    let e = serde_json::from_str::<Value>("{").unwrap_err();
    assert!(matches!(decode_parsed(Err(e)), Event::Decode(Error::Serde(_))));
}

#[test]
fn envelope_members() {
    let m = Envelope::read(&value(r#"{"type":"t","code":"c","message":1,"data":[2]}"#));
    assert_eq!(m.kind.as_deref(), Some("t"));
    assert_eq!(m.code.as_deref(), Some("c"));
    assert_eq!(m.message, None);
    assert_eq!(m.from, None);
    assert_eq!(m.data, Some(value("[2]")));
}

#[test]
fn binary_frames_are_read_as_text() {
    let bytes = "{\"from\":\"as:acme/\u{e9}\",\"data\":true}".as_bytes().to_vec();
    match decode_frame(Frame::Binary(bytes)) {
        Some(Event::Message { from, data }) => {
            assert_eq!(from, "as:acme/\u{e9}");
            assert_eq!(data, Value::Bool(true));
        }
        other => panic!("want a message, got {:?}", other),
    }
}

#[test]
fn binary_frames_that_are_no_text() {
    let bytes = vec![b'{', 0xff];
    let want = std::str::from_utf8(&bytes).unwrap_err().to_string();
    match decode_frame(Frame::Binary(bytes)) {
        Some(Event::Decode(Error::Transport(t))) => {
            assert_eq!(t, format!("non-utf8 binary frame: {}", want));
        }
        other => panic!("want a decode failure, got {:?}", other),
    }
}

#[test]
fn control_frames_say_nothing() {
    assert!(decode_frame(Frame::Ping).is_none());
    assert!(decode_frame(Frame::Pong).is_none());
    assert!(decode_frame(Frame::Raw).is_none());
}

fn close(code: u16, reason: &str) -> Event {
    map_close(Some(CloseFrame { code, reason: reason.to_string() }))
}

#[test]
fn close_codes() {
    assert!(matches!(map_close(None), Event::Closed));
    assert!(matches!(close(1000, "bye"), Event::Closed));
    assert!(matches!(close(1001, ""), Event::Closed));
    match close(1006, "gone away") {
        Event::ConnectionLost(Error::Transport(t)) => {
            assert_eq!(t, "connection closed: 1006 gone away");
        }
        other => panic!("want a lost connection, got {:?}", other),
    }
    match close(999, "") {
        Event::ConnectionLost(Error::Transport(t)) => assert_eq!(t, "connection closed: 999 "),
        other => panic!("want a lost connection, got {:?}", other),
    }
    assert!(matches!(decode_frame(Frame::Close(None)), Some(Event::Closed)));
}

#[test]
fn outgoing_frames() {
    let data = value(r#"{"cpu":94}"#);
    assert_eq!(
        outgoing_frame("ch:acme/alerts", &data),
        value(r#"{"to":"ch:acme/alerts","data":{"cpu":94}}"#)
    );
    assert_eq!(
        send_frame("ch:acme/alerts", &data).unwrap(),
        r#"{"data":{"cpu":94},"to":"ch:acme/alerts"}"#
    );
}

#[test]
fn outgoing_frames_name_no_sender() {
    let text = send_frame("as:a/b", &value("1")).unwrap();
    assert!(matches!(text_event(&text), Event::Decode(Error::Transport(_))));
}

#[test]
fn outcome_of_a_sent_frame() {
    assert!(frame_sent(Ok(())).is_ok());
    match frame_sent(Err("broken pipe".to_string())) {
        Err(Error::Transport(t)) => assert_eq!(t, "broken pipe"),
        other => panic!("want a transport error, got {:?}", other),
    }
}

#[test]
fn incoming_message() {
    let mut m = Message::incoming("as:acme/a".to_string(), value("[1]"));
    assert_eq!(m.from(), "as:acme/a");
    assert_eq!(*m.data(), value("[1]"));
    assert!(m.err().is_none());
    assert_eq!(m.reply(true).unwrap(), "as:acme/a");
    assert!(matches!(m.reply(false), Err(Error::Closed)));
    assert_eq!(m.take_data(), value("[1]"));
    assert_eq!(*m.data(), Value::Null);
    assert_eq!(m.take_data(), Value::Null);
    assert_eq!(m.from(), "as:acme/a");
}

#[test]
fn error_event() {
    let mut m = Message::error(Error::Closed);
    assert_eq!(m.from(), "");
    assert_eq!(*m.data(), Value::Null);
    assert!(matches!(m.err(), Some(Error::Closed)));
    assert!(matches!(m.reply(true), Err(Error::ReplyOnError)));
    assert!(matches!(m.reply(false), Err(Error::ReplyOnError)));
    assert!(matches!(m.take_err(), Some(Error::Closed)));
    assert!(m.err().is_none());
    assert!(m.take_err().is_none());
    assert!(matches!(m.reply(true), Err(Error::ReplyOnError)));
}

#[test]
fn message_without_sender_has_no_reply() {
    let m = Message::incoming(String::new(), value("1"));
    assert!(matches!(m.reply(true), Err(Error::ReplyOnError)));
}

#[test]
fn dial_urls() {
    assert_eq!(dial_url("wss://h", "as:acme/a"), "wss://h/as:acme/a");
    assert_eq!(dial_url("wss://h//", "as:acme/a"), "wss://h/as:acme/a");
    assert_eq!(dial_url("///", "x"), "/x");
    assert_eq!(dial_url("", ""), "/");
    assert_ne!(dial_url("wss://h", "as:acme/a"), dial_url("wss://h", "as:acme/b"));
}

#[test]
fn handshake_request() {
    let req = dial_request("ws://127.0.0.1:4000/", "tok", "as:test/me").unwrap();
    assert_eq!(req.method().as_str(), "GET");
    assert_eq!(req.uri().to_string(), "ws://127.0.0.1:4000/as:test/me");
    assert_eq!(req.headers().len(), 6);
    let header = |name: &str| req.headers().get(name).unwrap().to_str().unwrap().to_string();
    assert_eq!(header("authorization"), "Bearer tok");
    assert_eq!(header("host"), "127.0.0.1:4000");
    assert_eq!(header("connection"), "Upgrade");
    assert_eq!(header("upgrade"), "websocket");
    assert_eq!(header("sec-websocket-version"), "13");
    assert_eq!(req.headers().get_all("sec-websocket-key").iter().count(), 1);
}

#[test]
fn handshake_request_of_an_agent() {
    let cfg = Config { endpoint: "ws://localhost".to_string(), ..Config::default() };
    let agent = connect("secret".to_string(), "as:acme/a".to_string(), cfg);
    assert_eq!(agent.socket_id(), "as:acme/a");
    let req = agent.dial_request().unwrap();
    assert_eq!(req.uri().to_string(), "ws://localhost/as:acme/a");
    assert_eq!(req.headers().get("authorization").unwrap(), "Bearer secret");
}

#[test]
fn handshake_request_for_no_url() {
    match dial_request("ws://bad host", "tok", "as:test/me") {
        Err(Error::Transport(t)) => assert!(t.starts_with("build request: "), "{}", t),
        other => panic!("want a transport error, got {:?}", other),
    }
    match dial_request("", "tok", "as:test/me") {
        Err(Error::Transport(t)) => {
            assert_eq!(t, "build request: URL error: No host name in the URL");
        }
        other => panic!("want a transport error, got {:?}", other),
    }
}

#[test]
fn tokens_that_are_no_header_value() {
    for token in ["a\nb", "a\u{7f}", "\u{0}"] {
        match dial_request("ws://h", token, "as:test/me") {
            Err(Error::Transport(t)) => {
                assert_eq!(t, "invalid token: failed to parse header value");
            }
            other => panic!("want a transport error, got {:?}", other),
        }
    }
    let req = dial_request("ws://h", "a\tb \u{e9}", "as:test/me").unwrap();
    assert_eq!(
        req.headers().get("authorization").unwrap().as_bytes(),
        "Bearer a\tb \u{e9}".as_bytes()
    );
}

fn http_error(failure: DialFailure) -> ServerError {
    match map_dial_error(failure) {
        Error::Server(e) => e,
        other => panic!("want a server error, got {:?}", other),
    }
}

#[test]
fn rejected_handshakes() {
    let e = http_error(DialFailure::Http { status: 503, body: None });
    assert_eq!(e.code, "");
    assert_eq!(e.message, "websocket dial failed with HTTP 503");
    assert_eq!(e.status, 503);
    assert_eq!(e.to_string(), "[unknown] websocket dial failed with HTTP 503 (status 503)");

    let body = ServerErrorBody { error_code: None, error_message: Some("m".to_string()) };
    let e = http_error(DialFailure::Http { status: 404, body: Some(body) });
    assert_eq!(e.code, "");
    assert_eq!(e.message, "m");
    assert!(e.is_fatal());

    match map_dial_error(DialFailure::Other("IO error: refused".to_string())) {
        Error::Transport(t) => assert_eq!(t, "IO error: refused"),
        other => panic!("want a transport error, got {:?}", other),
    }
}
