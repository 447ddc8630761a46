//! Supervisor behaviour: reconnect, fatal-error detection, send-blocking,
//! reply, backoff and shutdown, driven event by event.

use agent_socket::agent::{SendEvent, SendStep};
use agent_socket::dial::{map_dial_error, DialFailure, ServerErrorBody};
use agent_socket::supervisor::{Action, Input, Step};
use agent_socket::ws::{CloseFrame, Frame, Outgoing};
use agent_socket::{connect, Agent, Config, Duration, Error, Message, ServerError};
use serde_json::Value;

fn test_config() -> Config {
    Config {
        endpoint: "ws://127.0.0.1:4000".to_string(),
        min_backoff: Duration::from_millis(50),
        max_backoff: Duration::from_millis(100),
    }
}

fn agent_with(token: &str) -> Agent {
    connect(token.to_string(), "as:test/me".to_string(), test_config())
}

fn value(text: &str) -> Value {
    serde_json::from_str(text).unwrap()
}

fn text_frame(text: &str) -> Input {
    Input::Frame(Frame::Text(text.to_string()))
}

fn outgoing(to: &str, data: &str) -> Outgoing {
    Outgoing::new(to, Ok(value(data))).unwrap()
}

struct Broken;

impl std::io::Read for Broken {
    fn read(&mut self, _buf: &mut [u8]) -> std::io::Result<usize> {
        Err(std::io::Error::new(std::io::ErrorKind::Other, "torn cable"))
    }
}

fn unreadable() -> serde_json::Error {
    serde_json::from_reader::<Broken, Value>(Broken).unwrap_err()
}

fn step(agent: &mut Agent, input: Input) -> Step {
    agent.step(input).expect("input not accepted")
}

/// Collects `(from, data or error text, is_err)` of what the handler is told.
type Events = Vec<(Option<String>, Value, bool)>;

fn record(events: &mut Events, deliver: Option<Message>) {
    if let Some(m) = deliver {
        match m.err() {
            Some(err) => events.push((None, Value::String(err.to_string()), true)),
            None => events.push((Some(m.from().to_string()), m.data().clone(), false)),
        }
    }
}

fn feed(agent: &mut Agent, events: &mut Events, input: Input) -> Action {
    let step = step(agent, input);
    record(events, step.deliver);
    step.action
}

fn transport(message: &str) -> Input {
    Input::Dialed(Err(Error::Transport(message.to_string())))
}

fn hung_up_after(secs: u64) -> Input {
    Input::HungUp { connected_for: Duration::from_secs(secs) }
}

fn connected() -> Agent {
    let mut agent = agent_with("tok");
    assert_eq!(step(&mut agent, Input::Started).action, Action::Dial);
    assert_eq!(step(&mut agent, Input::Dialed(Ok(()))).action, Action::Receive);
    agent
}

#[test]
fn reconnects_after_drop() {
    let mut agent = agent_with("tok");
    let mut events: Events = Vec::new();
    let mut attempts = 0;

    let mut action = feed(&mut agent, &mut events, Input::Started);
    while action == Action::Dial && attempts < 2 {
        attempts += 1;
        assert_eq!(feed(&mut agent, &mut events, Input::Dialed(Ok(()))), Action::Receive);
        if attempts == 1 {
            action = feed(
                &mut agent,
                &mut events,
                text_frame(r#"{"from":"as:test/sender","data":"first"}"#),
            );
            assert_eq!(action, Action::Receive);
            action = feed(
                &mut agent,
                &mut events,
                Input::Frame(Frame::Close(Some(CloseFrame {
                    code: 1011,
                    reason: "drop".to_string(),
                }))),
            );
            assert_eq!(action, Action::HangUp);
            action = feed(
                &mut agent,
                &mut events,
                Input::HungUp { connected_for: Duration::from_millis(20) },
            );
            assert_eq!(action, Action::Sleep);
            action = feed(&mut agent, &mut events, Input::Slept);
        } else {
            action = feed(
                &mut agent,
                &mut events,
                text_frame(r#"{"from":"as:test/sender","data":"second"}"#),
            );
            assert_eq!(action, Action::Receive);
        }
    }

    let msgs: Vec<_> = events.iter().filter(|(_, _, is_err)| !is_err).collect();
    let errs: Vec<_> = events.iter().filter(|(_, _, is_err)| *is_err).collect();
    assert!(msgs.len() >= 2, "want >=2 messages, got {}: {:?}", msgs.len(), events);
    assert!(errs.len() >= 1, "want >=1 error, got {}: {:?}", errs.len(), events);
    assert!(attempts >= 2);
    assert_eq!(
        events,
        vec![
            (Some("as:test/sender".to_string()), Value::String("first".to_string()), false),
            (
                None,
                Value::String("transport: connection closed: 1011 drop".to_string()),
                true
            ),
            (Some("as:test/sender".to_string()), Value::String("second".to_string()), false),
        ]
    );
}

#[test]
fn stops_on_auth_error() {
    let mut agent = agent_with("bad-token");
    assert_eq!(step(&mut agent, Input::Started).action, Action::Dial);
    let rejected = map_dial_error(DialFailure::Http {
        status: 401,
        body: Some(ServerErrorBody {
            error_code: Some("E1001".to_string()),
            error_message: Some("bad token".to_string()),
        }),
    });
    let last = step(&mut agent, Input::Dialed(Err(rejected)));
    assert_eq!(last.action, Action::Stop, "agent never gave up on 401");
    assert!(agent.is_done());

    let err = agent.err().expect("want fatal error");
    match err {
        Error::Server(se) => {
            assert_eq!(se.status, 401);
            assert!(se.is_fatal());
            assert_eq!(se.code, "E1001");
            assert_eq!(se.message, "bad token");
        }
        other => panic!("want ServerError, got {:?}", other),
    }

    let told = last.deliver.expect("the handler is told");
    assert_eq!(
        told.err().expect("an error event").to_string(),
        "[E1001] bad token (status 401)"
    );
}

#[test]
fn send_blocks_until_connected() {
    let mut agent = agent_with("tok");
    let message = Outgoing::new("as:test/peer", Ok(value(r#"{ "ping": 1 }"#))).unwrap();

    // Fire send immediately, before dial could complete.
    assert!(matches!(agent.send(&message, SendEvent::Begin), SendStep::Wait));
    assert_eq!(step(&mut agent, Input::Started).action, Action::Dial);
    assert!(matches!(agent.send(&message, SendEvent::Changed), SendStep::Wait));
    assert_eq!(step(&mut agent, Input::Dialed(Ok(()))).action, Action::Receive);
    let queued = match agent.send(&message, SendEvent::Changed) {
        SendStep::Enqueue(m) => m,
        other => panic!("send timed out: {:?}", other),
    };

    let s = step(&mut agent, Input::Request(queued));
    assert_eq!(s.action, Action::Transmit);
    let sent = s.transmit.expect("never received").frame_text().expect("send failed");
    let got = value(&sent);
    assert_eq!(got, value(r#"{ "to": "as:test/peer", "data": { "ping": 1 } }"#));

    let s = step(&mut agent, Input::Written(Ok(())));
    assert_eq!(s.action, Action::Receive);
    let answer = s.answer.expect("an answer");
    assert!(matches!(
        agent.send(&message, SendEvent::Replied(answer)),
        SendStep::Finish(Ok(()))
    ));
}

#[test]
fn reply_from_handler() {
    let mut agent = connected();
    let got = step(&mut agent, text_frame(r#"{"from":"as:test/peer","data":{"ping":1}}"#));
    let m = got.deliver.expect("no message received");
    assert!(m.err().is_none());

    let mut payload = serde_json::Map::new();
    payload.insert("pong".to_string(), m.data().clone());
    let to = m.reply(true).expect("no reply");
    let reply = Outgoing::new(to, Ok(Value::Object(payload))).unwrap();
    let s = step(&mut agent, Input::Request(reply));
    let sent = s.transmit.expect("no reply received").frame_text().expect("send failed");
    assert_eq!(
        value(&sent),
        value(r#"{ "to": "as:test/peer", "data": { "pong": { "ping": 1 } } }"#)
    );
}

#[test]
fn fatal_statuses_stop_and_others_retry() {
    for (status, fatal) in [(401u16, true), (403, true), (404, true), (400, false), (500, false)] {
        let mut agent = agent_with("tok");
        step(&mut agent, Input::Started);
        let e = ServerError::new("E".to_string(), "m".to_string(), status);
        let s = step(&mut agent, Input::Dialed(Err(Error::Server(e))));
        assert!(s.deliver.is_some());
        if fatal {
            assert_eq!(s.action, Action::Stop);
            assert!(agent.is_done());
            assert!(matches!(agent.err(), Some(Error::Server(e)) if e.status == status));
        } else {
            assert_eq!(s.action, Action::Sleep);
            assert!(!agent.is_done());
            match agent.err() {
                Some(Error::Server(e)) => {
                    assert_eq!(e.code, "E");
                    assert_eq!(e.message, "m");
                    assert_eq!(e.status, status);
                }
                other => panic!("want the server error, got {:?}", other),
            }
            assert_eq!(step(&mut agent, Input::Slept).action, Action::Dial);
        }
    }
}

#[test]
fn server_error_frames_do_not_end_the_connection() {
    let mut agent = connected();
    let s = step(
        &mut agent,
        text_frame(r#"{"type":"error","code":"E404","message":"no such socket"}"#),
    );
    assert_eq!(s.action, Action::Receive);
    let m = s.deliver.unwrap();
    match m.err() {
        Some(Error::Server(e)) => {
            assert_eq!(e.status, 0);
            assert!(!e.is_fatal());
            assert_eq!(e.to_string(), "[E404] no such socket");
        }
        other => panic!("want ServerError, got {:?}", other),
    }
    assert!(agent.is_ready());
    assert!(agent.err().is_none());
}

#[test]
fn no_error_during_a_connection() {
    let mut agent = agent_with("tok");
    step(&mut agent, Input::Started);
    step(&mut agent, transport("refused"));
    match agent.err() {
        Some(Error::Transport(t)) => assert_eq!(t, "refused"),
        other => panic!("want the last error, got {:?}", other),
    }
    step(&mut agent, Input::Slept);
    assert!(agent.err().is_some());
    step(&mut agent, Input::Dialed(Ok(())));
    assert!(agent.err().is_none());

    // It ends cleanly: nothing worse happened since.
    step(&mut agent, Input::Ended);
    step(&mut agent, hung_up_after(1));
    match agent.err() {
        Some(Error::Transport(t)) => assert_eq!(t, "refused"),
        other => panic!("want the last error, got {:?}", other),
    }
}

#[test]
fn the_most_recent_error_is_kept_whole() {
    let mut agent = agent_with("tok");
    step(&mut agent, Input::Started);
    step(&mut agent, transport("refused"));
    step(&mut agent, Input::Slept);
    let e = ServerError::new("E5".to_string(), "boom".to_string(), 500);
    step(&mut agent, Input::Dialed(Err(Error::Server(e))));
    for _ in 0..2 {
        match agent.err() {
            Some(Error::Server(e)) => {
                assert_eq!(e.code, "E5");
                assert_eq!(e.message, "boom");
                assert_eq!(e.status, 500);
            }
            other => panic!("want the server error, got {:?}", other),
        }
    }

    // A dropped connection is more recent.
    step(&mut agent, Input::Slept);
    step(&mut agent, Input::Dialed(Ok(())));
    step(&mut agent, Input::Failed("reset".to_string()));
    step(&mut agent, hung_up_after(1));
    match agent.err() {
        Some(Error::Transport(t)) => assert_eq!(t, "reset"),
        other => panic!("want the transport error, got {:?}", other),
    }
}

#[test]
fn json_failures_are_kept_as_their_message() {
    let mut agent = agent_with("tok");
    step(&mut agent, Input::Started);
    let e = serde_json::from_str::<Value>("{").unwrap_err();
    let want = format!("serialization: {}", e);
    step(&mut agent, Input::Dialed(Err(Error::Serde(e))));
    match agent.err() {
        Some(Error::Transport(t)) => assert_eq!(t, want),
        other => panic!("want the message, got {:?}", other),
    }
}

#[test]
fn failures_to_read_are_kept_as_a_fixed_message() {
    let e = unreadable();
    assert!(e.is_io());
    let shown = Error::Serde(e).to_string();
    assert!(shown.starts_with("serialization: ") && shown.contains("torn cable"), "{}", shown);

    let mut agent = agent_with("tok");
    step(&mut agent, Input::Started);
    step(&mut agent, Input::Dialed(Err(Error::Serde(unreadable()))));
    match agent.err() {
        Some(Error::Transport(t)) => assert_eq!(t, "serialization: I/O error"),
        other => panic!("want the fixed message, got {:?}", other),
    }
}

#[test]
fn backoff_doubles_from_half_a_second_to_thirty() {
    let mut agent = connect("tok".to_string(), "as:test/me".to_string(), Config::default());
    step(&mut agent, Input::Started);
    for want in [500u128, 1000, 2000, 4000, 8000, 16000, 30000, 30000] {
        assert_eq!(step(&mut agent, transport("down")).action, Action::Sleep);
        for _ in 0..50 {
            let delay = agent.sleep_duration().unwrap().as_millis();
            assert!(want <= delay && delay < want + want / 2, "{} for {}", delay, want);
            assert!(delay <= 30000);
        }
        assert_eq!(step(&mut agent, Input::Slept).action, Action::Dial);
    }
}

#[test]
fn delays_are_jittered() {
    let agent = connect("tok".to_string(), "as:test/me".to_string(), Config::default());
    let first = agent.sleep_duration().unwrap();
    let mut others = 0;
    for _ in 0..100 {
        if agent.sleep_duration().unwrap() != first {
            others += 1;
        }
    }
    assert!(others > 0);
}

#[test]
fn long_connections_reset_the_backoff() {
    for (secs, want) in [(30u64, 100u128), (31, 50)] {
        let mut agent = agent_with("tok");
        step(&mut agent, Input::Started);
        step(&mut agent, transport("down"));
        step(&mut agent, Input::Slept);
        step(&mut agent, Input::Dialed(Ok(())));
        assert_eq!(step(&mut agent, Input::Ended).action, Action::HangUp);
        let s = step(&mut agent, hung_up_after(secs));
        assert_eq!(s.action, Action::Sleep);
        assert!(s.deliver.is_none());
        let delay = agent.sleep_duration().unwrap().as_millis();
        assert!(want <= delay && delay < want + want / 2, "{} after {}s", delay, secs);
    }
}

#[test]
fn initial_delay_may_exceed_the_cap_once() {
    let mut agent = connect(
        "tok".to_string(),
        "as:test/me".to_string(),
        Config {
            endpoint: "ws://127.0.0.1:4000".to_string(),
            min_backoff: Duration::from_millis(1),
            max_backoff: Duration::from_millis(0),
        },
    );
    step(&mut agent, Input::Started);
    step(&mut agent, transport("down"));
    assert_eq!(agent.sleep_duration().unwrap().as_millis(), 1);
    step(&mut agent, Input::Slept);
    step(&mut agent, transport("down"));
    assert_eq!(agent.sleep_duration().unwrap().as_millis(), 0);
}

#[test]
fn delays_too_long_to_count_are_refused() {
    let longest = Duration::new(u64::MAX, 999_999_999);
    let mut agent = connect(
        "tok".to_string(),
        "as:test/me".to_string(),
        Config {
            endpoint: "ws://127.0.0.1:4000".to_string(),
            min_backoff: longest,
            max_backoff: longest,
        },
    );
    step(&mut agent, Input::Started);
    step(&mut agent, transport("down"));
    assert!(agent.step(Input::Slept).is_none());
    assert_eq!(step(&mut agent, Input::Cancelled).action, Action::Stop);
}

#[test]
fn close_stops_from_every_phase() {
    // Not started.
    let mut agent = agent_with("tok");
    agent.close();
    agent.close();
    assert!(!agent.is_done());
    assert_eq!(step(&mut agent, Input::Started).action, Action::Stop);
    assert!(agent.is_done());

    // While dialing: the connection that opens is hung up at once.
    let mut agent = agent_with("tok");
    step(&mut agent, Input::Started);
    agent.close();
    step(&mut agent, Input::Dialed(Ok(())));
    let s = step(&mut agent, text_frame(r#"{"from":"as:a/b","data":1}"#));
    assert_eq!(s.action, Action::HangUp);
    assert!(s.deliver.is_none());
    assert_eq!(step(&mut agent, hung_up_after(1)).action, Action::Stop);
    assert!(agent.is_done());

    // While connected.
    let mut agent = connected();
    assert_eq!(step(&mut agent, Input::Cancelled).action, Action::HangUp);
    assert!(!agent.is_ready());
    assert_eq!(step(&mut agent, hung_up_after(1)).action, Action::Stop);
    assert!(agent.err().is_none());

    // While sleeping.
    let mut agent = agent_with("tok");
    step(&mut agent, Input::Started);
    step(&mut agent, transport("down"));
    agent.close();
    assert_eq!(step(&mut agent, Input::Slept).action, Action::Stop);
    assert!(agent.is_done());
}

#[test]
fn stopped_agents_take_no_input() {
    let mut agent = agent_with("tok");
    agent.close();
    step(&mut agent, Input::Started);
    assert!(agent.step(Input::Started).is_none());
    assert!(agent.step(Input::Slept).is_none());
    assert!(agent.step(Input::Cancelled).is_none());
    assert!(agent.step(Input::Dialed(Ok(()))).is_none());
    assert!(agent.step(Input::Ended).is_none());
    assert!(agent.step(hung_up_after(1)).is_none());
    assert!(agent.is_done());
}

#[test]
fn inputs_out_of_order_change_nothing() {
    let mut agent = agent_with("tok");
    assert!(agent.step(Input::Request(outgoing("as:a/b", "1"))).is_none());
    assert!(agent.step(Input::Written(Ok(()))).is_none());
    assert_eq!(step(&mut agent, Input::Started).action, Action::Dial);
    assert!(agent.step(Input::Started).is_none());
    assert_eq!(step(&mut agent, Input::Dialed(Ok(()))).action, Action::Receive);
}

#[test]
fn read_failures_are_reported_and_retried() {
    let mut agent = connected();
    let s = step(&mut agent, Input::Failed("reset by peer".to_string()));
    assert_eq!(s.action, Action::HangUp);
    assert!(s.deliver.is_none());
    let s = step(&mut agent, hung_up_after(1));
    assert_eq!(s.action, Action::Sleep);
    assert_eq!(s.deliver.unwrap().err().unwrap().to_string(), "transport: reset by peer");
    assert_eq!(step(&mut agent, Input::Slept).action, Action::Dial);
}

#[test]
fn messages_keep_their_order() {
    let mut agent = connected();
    let mut events: Events = Vec::new();
    for n in ["1", "2", "3"] {
        let text = format!(r#"{{"from":"ch:acme/alerts","data":{}}}"#, n);
        feed(&mut agent, &mut events, text_frame(&text));
        feed(&mut agent, &mut events, Input::Frame(Frame::Ping));
        feed(&mut agent, &mut events, Input::Frame(Frame::Pong));
        feed(&mut agent, &mut events, Input::Frame(Frame::Raw));
    }
    let data: Vec<Value> = events.into_iter().map(|(_, data, _)| data).collect();
    assert_eq!(data, vec![value("1"), value("2"), value("3")]);
}

#[test]
fn requests_are_answered_one_by_one() {
    let mut agent = connected();
    for (n, fails) in [("1", false), ("2", true), ("3", false)] {
        let s = step(&mut agent, Input::Request(outgoing("as:a/b", n)));
        assert_eq!(s.action, Action::Transmit);
        assert!(s.answer.is_none());
        let m = s.transmit.expect("a message to transmit");
        assert_eq!(m.to, "as:a/b");
        assert_eq!(m.data, value(n));
        assert!(agent.is_ready());

        // Nothing else is taken before the write is over.
        assert!(agent.step(Input::Request(outgoing("as:a/b", "9"))).is_none());
        assert!(agent.step(Input::Cancelled).is_none());

        let outcome = if fails { Err(Error::Transport("broken".to_string())) } else { Ok(()) };
        let s = step(&mut agent, Input::Written(outcome));
        assert_eq!(s.action, Action::Receive);
        assert!(s.transmit.is_none());
        match s.answer.expect("an answer") {
            Ok(()) => assert!(!fails),
            Err(Error::Transport(t)) => assert!(fails && t == "broken"),
            Err(e) => panic!("want a transport error, got {:?}", e),
        }
        assert!(agent.is_ready());
    }
}

#[test]
fn a_write_is_finished_before_the_agent_stops() {
    let mut agent = connected();
    step(&mut agent, Input::Request(outgoing("as:a/b", "1")));
    agent.close();
    let s = step(&mut agent, Input::Written(Ok(())));
    assert!(matches!(s.answer, Some(Ok(()))));
    let s = step(&mut agent, Input::Request(outgoing("as:a/b", "2")));
    assert_eq!(s.action, Action::HangUp);
    assert!(s.transmit.is_none() && s.answer.is_none());
    assert_eq!(step(&mut agent, hung_up_after(1)).action, Action::Stop);
}

#[test]
fn sends_are_refused_with_the_cause() {
    let message = outgoing("as:a/b", "1");
    let mut agent = agent_with("tok");
    step(&mut agent, Input::Started);
    let e = ServerError::new("E1".to_string(), "gone".to_string(), 404);
    step(&mut agent, Input::Dialed(Err(Error::Server(e))));
    for event in [
        SendEvent::Begin,
        SendEvent::Changed,
        SendEvent::WatchLost,
        SendEvent::QueueLost,
        SendEvent::ReplyLost,
        SendEvent::Replied(Err(Error::Transport("dropped".to_string()))),
    ] {
        match agent.send(&message, event) {
            SendStep::Finish(Err(Error::Server(e))) => assert_eq!(e.status, 404),
            other => panic!("want the fatal error, got {:?}", other),
        }
    }

    let mut agent = agent_with("tok");
    agent.close();
    step(&mut agent, Input::Started);
    for event in [
        SendEvent::Begin,
        SendEvent::Changed,
        SendEvent::WatchLost,
        SendEvent::QueueLost,
        SendEvent::ReplyLost,
        SendEvent::Replied(Err(Error::Transport("dropped".to_string()))),
    ] {
        assert!(matches!(agent.send(&message, event), SendStep::Finish(Err(Error::Closed))));
    }
}

#[test]
fn dropped_messages_wait_for_the_next_connection() {
    let mut agent = connected();
    let message = outgoing("as:a/b", r#"{"n":1}"#);
    let dropped = || SendEvent::Replied(Err(Error::Transport("reset".to_string())));
    match agent.send(&message, dropped()) {
        SendStep::Enqueue(m) => {
            assert_eq!(m.to, "as:a/b");
            assert_eq!(m.data, value(r#"{"n":1}"#));
        }
        other => panic!("want the message again, got {:?}", other),
    }
    step(&mut agent, Input::Ended);
    assert!(matches!(agent.send(&message, dropped()), SendStep::Wait));
    assert!(matches!(agent.send(&message, SendEvent::Changed), SendStep::Wait));
    step(&mut agent, hung_up_after(1));
    step(&mut agent, Input::Slept);
    step(&mut agent, Input::Dialed(Ok(())));
    assert!(matches!(
        agent.send(&message, SendEvent::Changed),
        SendStep::Enqueue(m) if m.data == value(r#"{"n":1}"#)
    ));
}

#[test]
fn payloads_that_are_no_json_are_not_sent() {
    let e = serde_json::from_str::<Value>("{").unwrap_err();
    assert!(matches!(Outgoing::new("as:a/b", Err(e)), Err(Error::Serde(_))));
    assert!(matches!(
        connected().send(&outgoing("as:a/b", "1"), SendEvent::Replied(Err(Error::Closed))),
        SendStep::Finish(Err(Error::Closed))
    ));
}
