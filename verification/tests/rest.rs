//! The REST client: which request each operation makes, and what a failed one
//! reports. Also the values that the client is configured with.

use agent_socket::api::{
    api_error_from, api_error_parsed, decode_failed, encode, response_step, Client, Method,
    Request, ResponseStep, DEFAULT_BASE_URL, REQUEST_TIMEOUT_SECS,
};
use agent_socket::backoff::{delay, grown, jitter, jitter_bound, sleep_duration};
use agent_socket::errors::{ApiError, Error, ServerError};
use agent_socket::json::{member_str, null};
use agent_socket::text::{decimal, or_empty, trim_end_slashes};
use agent_socket::types::{single_text, CreateSocketRequest, UpdateProfileRequest};
use agent_socket::{Config, Duration, DEFAULT_ENDPOINT};
use serde_json::Value;

fn client() -> Client {
    Client::with_base_url("sk".to_string(), "http://localhost:8080//")
}

fn value(text: &str) -> Value {
    serde_json::from_str(text).unwrap()
}

fn check(r: Request, method: Method, path: &str, body: Option<&str>) {
    assert_eq!(r.method, method);
    assert_eq!(r.url, format!("http://localhost:8080{}", path));
    assert_eq!(r.token, "sk");
    assert_eq!(r.body, body.map(value));
}

#[test]
fn default_base_url() {
    assert_eq!(DEFAULT_BASE_URL, "https://api.agent-socket.ai");
    assert_eq!(REQUEST_TIMEOUT_SECS, 30);
    let r = Client::new("sk".to_string()).health();
    assert_eq!(r.url, "https://api.agent-socket.ai/health");
}

#[test]
fn requests_without_body() {
    let c = client();
    check(c.health(), Method::Get, "/health", None);
    check(c.list_sockets(), Method::Get, "/sockets", None);
    check(c.delete_socket("as:a/b"), Method::Delete, "/sockets/as:a/b", None);
    check(c.get_socket_status("as:a/b"), Method::Get, "/sockets/as:a/b/status", None);
    check(c.list_namespaces(), Method::Get, "/namespaces", None);
    check(c.list_channels(), Method::Get, "/channels", None);
    check(c.list_members("ch:a/c%"), Method::Get, "/channels/ch:a/c%25/members", None);
    check(
        c.remove_member("ch:a/c", "as:a/%b"),
        Method::Delete,
        "/channels/ch:a/c/members/as:a/%25b",
        None,
    );
}

#[test]
fn requests_with_body() {
    let c = client().clone();
    check(
        c.create_socket(&CreateSocketRequest {
            name: Some("acme/my-agent".to_string()),
            ..Default::default()
        }),
        Method::Post,
        "/sockets",
        Some(r#"{"name":"acme/my-agent"}"#),
    );
    check(
        c.create_socket(&CreateSocketRequest {
            name: Some("n".to_string()),
            agent_name: Some("a".to_string()),
            agent_description: Some("d".to_string()),
            vibe: Some("v".to_string()),
        }),
        Method::Post,
        "/sockets",
        Some(r#"{"name":"n","agent_name":"a","agent_description":"d","vibe":"v"}"#),
    );
    check(c.create_socket(&CreateSocketRequest::default()), Method::Post, "/sockets", Some("{}"));
    check(
        c.update_profile(
            "as:a/b",
            &UpdateProfileRequest { agent_description: Some("d".to_string()), ..Default::default() },
        ),
        Method::Patch,
        "/sockets/as:a/b/profile",
        Some(r#"{"agent_description":"d"}"#),
    );
    check(
        c.update_vibe("as:a/b", "calm"),
        Method::Patch,
        "/sockets/as:a/b/vibe",
        Some(r#"{"vibe":"calm"}"#),
    );
    check(c.create_namespace("acme"), Method::Post, "/namespaces", Some(r#"{"name":"acme"}"#));
    check(
        c.create_channel("acme/alerts"),
        Method::Post,
        "/channels",
        Some(r#"{"name":"acme/alerts"}"#),
    );
    check(
        c.add_member("ch:a/c", "as:a/b"),
        Method::Post,
        "/channels/ch:a/c/members",
        Some(r#"{"socket_id":"as:a/b"}"#),
    );
}

#[test]
fn percent_signs_are_escaped() {
    assert_eq!(encode("as:ns/name"), "as:ns/name");
    assert_eq!(encode("%"), "%25");
    assert_eq!(encode("%25"), "%2525");
    assert_eq!(encode("a%b%%\u{e9}"), "a%25b%25%25\u{e9}");
    assert_eq!(encode(""), "");
    let c = client();
    assert_ne!(c.delete_socket("a%").url, c.delete_socket("a%25").url);
}

#[test]
fn trailing_slashes_are_dropped() {
    assert_eq!(trim_end_slashes("http://h//"), "http://h");
    assert_eq!(trim_end_slashes("/a/\u{e9}/"), "/a/\u{e9}");
    assert_eq!(trim_end_slashes("//"), "");
    assert_eq!(trim_end_slashes(""), "");
}

#[test]
fn successful_statuses() {
    for (status, want) in [(199u16, false), (200, true), (204, true), (299, true), (300, false)] {
        match response_step(Ok(status)) {
            ResponseStep::Decode => assert!(want, "{}", status),
            ResponseStep::Explain => assert!(!want, "{}", status),
            ResponseStep::Finish(e) => panic!("want no error, got {:?}", e),
        }
    }
}

#[test]
fn failed_requests() {
    match response_step(Err("timeout".to_string())) {
        ResponseStep::Finish(Error::Api(e)) => {
            assert_eq!(e.status, 0);
            assert_eq!(e.message, "request failed: timeout");
            assert_eq!(e.to_string(), "api error (status 0): request failed: timeout");
        }
        other => panic!("want an API error, got {:?}", other),
    }
    match decode_failed("EOF") {
        Error::Api(e) => {
            assert_eq!(e.status, 0);
            assert_eq!(e.message, "decode response: EOF");
        }
        other => panic!("want an API error, got {:?}", other),
    }
}

#[test]
fn error_responses() {
    let message = |body: &str| {
        let e = api_error_from(418, body);
        assert_eq!(e.status, 418);
        e.message
    };
    assert_eq!(message(""), "unknown error");
    assert_eq!(message(r#"{"message":"m","error":"e"}"#), "m");
    assert_eq!(message(r#"{"message":1,"error":"e"}"#), "e");
    assert_eq!(message(r#"{"error":"e"}"#), "e");
    assert_eq!(message(r#"{"error":{}}"#), r#"{"error":{}}"#);
    assert_eq!(message("\"text\""), "\"text\"");
    assert_eq!(message("plain"), "plain");
    assert_eq!(api_error_parsed(500, "b", Ok(value(r#"{"error":"e"}"#))).message, "e");
    assert_eq!(api_error_parsed(500, "", Ok(value(r#"{"error":"e"}"#))).message, "unknown error");
}

#[test]
fn api_error_kinds() {
    let e = |status| ApiError::new(status, "m".to_string());
    assert!(e(404).is_not_found() && !e(404).is_unauthorized() && !e(404).is_forbidden());
    assert!(!e(401).is_not_found() && e(401).is_unauthorized() && !e(401).is_forbidden());
    assert!(!e(403).is_not_found() && !e(403).is_unauthorized() && e(403).is_forbidden());
    assert_eq!(e(65535).to_string(), "api error (status 65535): m");
    assert_eq!(e(7).clone().message, "m");
}

#[test]
fn error_texts() {
    let server = ServerError::new("E1".to_string(), "m".to_string(), 500);
    assert_eq!(server.to_string(), "[E1] m (status 500)");
    assert_eq!(Error::from(server.clone()).to_string(), "[E1] m (status 500)");
    assert_eq!(ServerError::new(String::new(), "m".to_string(), 0).to_string(), "[unknown] m");
    let api = ApiError::new(500, "m".to_string());
    assert_eq!(Error::from(api).to_string(), "api error (status 500): m");
    assert_eq!(Error::Transport("t".to_string()).to_string(), "transport: t");
    assert_eq!(Error::Closed.to_string(), "agent closed");
    assert_eq!(Error::ReplyOnError.to_string(), "cannot reply on error event");
    let json = serde_json::from_str::<Value>("[").unwrap_err();
    let text = json.to_string();
    let kept = Error::from(json).keep();
    assert!(matches!(kept, Error::Transport(t) if t == format!("serialization: {}", text)));
    assert!(matches!(Error::Api(ApiError::new(5, "m".to_string())).keep(), Error::Api(e) if e.status == 5));
    assert!(matches!(Error::Closed.keep(), Error::Closed));
    assert!(matches!(Error::ReplyOnError.keep(), Error::ReplyOnError));
    let json = serde_json::from_str::<Value>("[").unwrap_err();
    assert_eq!(Error::from(json).to_string(), format!("serialization: {}", text));
}

#[test]
fn json_members() {
    let v = value(r#"{"a":"x","b":1}"#);
    assert_eq!(member_str(&v, "a"), Some("x"));
    assert_eq!(member_str(&v, "b"), None);
    assert_eq!(member_str(&v, "c"), None);
    assert_eq!(member_str(&value("\"a\""), "a"), None);
    assert_eq!(null(), Value::Null);
    assert_eq!(single_text("k", "v"), value(r#"{"k":"v"}"#));
}

#[test]
fn decimal_numbers() {
    for n in [0u16, 7, 10, 99, 100, 1006, 65535] {
        assert_eq!(decimal(n), format!("{}", n));
    }
    assert_eq!(or_empty(None), "");
    assert_eq!(or_empty(Some("x".to_string())), "x");
}

#[test]
fn default_config() {
    let cfg = Config::default().clone();
    assert_eq!(cfg.endpoint, "wss://as.agent-socket.ai");
    assert_eq!(cfg.endpoint, DEFAULT_ENDPOINT);
    assert_eq!(cfg.min_backoff.as_millis(), 500);
    assert_eq!(cfg.max_backoff.as_secs(), 30);
}

#[test]
fn spans_of_time() {
    let d = Duration::new(2, 500_000_001);
    assert_eq!(d.as_secs(), 2);
    assert_eq!(d.subsec_nanos(), 500_000_001);
    assert_eq!(d.as_millis(), 2500);
    assert!(d.exceeds(&Duration::from_millis(2500)));
    assert!(!d.exceeds(&d));
    assert_eq!(d.plus(d), Duration::new(5, 2));
    assert_eq!(d.sum_up_to(d, Duration::from_secs(5)), Duration::from_secs(5));
    assert_eq!(d.sum_up_to(d, Duration::from_secs(6)), Duration::new(5, 2));
    assert_eq!(d.shorter(Duration::from_secs(2)), Duration::from_secs(2));
    let longest = Duration::new(u64::MAX, 999_999_999);
    assert_eq!(longest.as_secs(), u64::MAX);
    assert_eq!(longest.checked_sum(Duration::new(0, 1)), None);
    assert_eq!(longest.checked_sum(Duration::from_secs(0)), Some(longest));
}

#[test]
fn jitter_stays_below_half() {
    for (millis, bound) in [(0u64, 0u64), (1, 0), (2, 1), (3, 1), (50, 25), (30_000, 15_000)] {
        assert_eq!(jitter_bound(Duration::from_millis(millis)), bound);
    }
    for millis in [0u64, 1, 2, 3] {
        assert_eq!(jitter(Duration::from_millis(millis)), 0);
    }
    for millis in [50u64, 500, 30_000] {
        let mut longest = 0;
        for _ in 0..500 {
            let j = jitter(Duration::from_millis(millis));
            assert!(j < millis / 2, "{} for {}", j, millis);
            if j > longest {
                longest = j;
            }
        }
        assert!(longest > 0);
    }
}

#[test]
fn drawn_numbers_fix_the_delay() {
    let ms = Duration::from_millis;
    assert_eq!(delay(ms(500), 249, ms(30_000)), Some(ms(749)));
    assert_eq!(delay(ms(500), 0, ms(30_000)), Some(ms(500)));
    assert_eq!(delay(ms(16_000), 7_999, ms(20_000)), Some(ms(20_000)));
    assert_eq!(delay(ms(30_000), 14_999, ms(30_000)), Some(ms(30_000)));
    // A backoff above the maximum is taken as it is.
    assert_eq!(delay(ms(40_000), 7, ms(30_000)), Some(ms(40_007)));
    let longest = Duration::new(u64::MAX, 999_999_999);
    assert_eq!(delay(longest, 1, longest), Some(longest));
    assert_eq!(delay(longest, 1, ms(0)), None);
    assert_eq!(delay(longest, 0, ms(0)), Some(longest));
}

#[test]
fn delays_grow_to_the_cap() {
    let max = Duration::from_secs(30);
    assert_eq!(grown(Duration::from_millis(500), max), Duration::from_secs(1));
    assert_eq!(grown(Duration::from_secs(16), max), max);
    assert_eq!(grown(max, max), max);
    assert_eq!(sleep_duration(Duration::from_millis(1), max), Some(Duration::from_millis(1)));
    assert_eq!(sleep_duration(Duration::from_millis(3), max), Some(Duration::from_millis(3)));
    for _ in 0..100 {
        assert_eq!(sleep_duration(max, max), Some(max));
        let d = sleep_duration(Duration::from_secs(20), Duration::from_secs(22)).unwrap();
        assert!(20_000 <= d.as_millis() && d.as_millis() <= 22_000);
    }
}
