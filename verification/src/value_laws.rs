//! What texts, frames, requests, errors and delays are made of, said of what
//! goes in and what comes out.

use crate::agent::{SendEvent, SendEventView, SendStep, SendStepView};
use crate::api::{
    api_error_of, members_path, socket_path, text_member, ClientView, Method, Request,
    ResponseStep, ResponseStepView,
};
use crate::backoff::{half_millis, is_jitter, jittered, next_backoff};
use crate::config::{Config, ConfigView};
use crate::dial::{
    bearer, dial_error, dial_url_text, is_authorized, is_header_byte, is_header_text, DialFailure,
};
use crate::errors::{
    outcome_view, ApiError, ApiErrorView, Error, ErrorView, ServerError, ServerErrorView,
};
use crate::json::{
    json_error_is_io, json_error_text, json_parsed, json_text, json_view, member_views, null_value,
    object_views, Json,
};
use crate::supervisor::{
    CycleOutcome, Input, InputView, OutcomeView, Phase, PhaseView, Step, Supervisor,
};
use crate::text::{decimal_text, escape_percent, opt_text, text_or_empty, trim_end_of};
use crate::types::{CreateSocketRequest, UpdateProfileRequest};
use crate::ws::{
    close_event, close_frame_view, envelope_event, envelope_of, frame_event, is_outgoing,
    is_outgoing_text, parsed_event, utf8_error_text, CloseFrame, CloseFrameView, Envelope,
    EnvelopeView, Event, EventView, Frame, FrameView, Outgoing, OutgoingView,
};
use serde_json::{Error as JsonError, Value};
use vstd::prelude::*;
use vstd::std_specs::convert::FromSpec;
use vstd::utf8::{decode_utf8, encode_utf8, valid_utf8};

verus! {

/// The number that decimal digits stand for.
pub open spec fn decimal_value(digits: Seq<char>) -> int
    decreases digits.len(),
{
    if digits.len() == 0 {
        0
    } else {
        10 * decimal_value(digits.drop_last()) + (digits.last() as int - '0' as int)
    }
}

/// A number in decimal notation is made of digits, reads back as the number,
/// and has no leading zero.
pub proof fn decimals_read_back(n: nat)
    ensures
        decimal_value(decimal_text(n)) == n,
        decimal_text(n).len() > 0,
        decimal_text(n).len() > 1 ==> decimal_text(n)[0] != '0',
        n > 0 ==> decimal_text(n)[0] != '0',
        forall|i: int|
            0 <= i < decimal_text(n).len() ==> '0' <= #[trigger] decimal_text(n)[i] <= '9',
    decreases n,
{
    reveal_with_fuel(decimal_value, 2);
    if n >= 10 {
        decimals_read_back(n / 10);
        let head = decimal_text(n / 10);
        assert(decimal_text(n).drop_last() =~= head);
        assert(decimal_text(n)[0] == head[0]);
        assert forall|i: int| 0 <= i < decimal_text(n).len() implies '0'
            <= #[trigger] decimal_text(n)[i] <= '9' by {
            if i < head.len() {
                assert(decimal_text(n)[i] == head[i]);
            }
        }
    } else {
        assert(decimal_text(n).drop_last() =~= seq![]);
    }
}

/// Trimming takes away a run of `c` from the end, all of it, and nothing else.
pub proof fn trimming(s: Seq<char>, c: char)
    ensures
        ({
            let r = trim_end_of(s, c);
            &&& r.len() <= s.len()
            &&& r == s.take(r.len() as int)
            &&& forall|i: int| r.len() <= i < s.len() ==> #[trigger] s[i] == c
            &&& r.len() > 0 ==> r.last() != c
        }),
    decreases s.len(),
{
    let r = trim_end_of(s, c);
    if s.len() > 0 && s.last() == c {
        let t = s.drop_last();
        trimming(t, c);
        assert(r =~= s.take(r.len() as int));
        assert forall|i: int| r.len() <= i < s.len() implies #[trigger] s[i] == c by {
            if i < t.len() {
                assert(t[i] == s[i]);
            }
        }
    } else {
        assert(s =~= s.take(s.len() as int));
    }
}

/// Escaping works character by character: a percent sign becomes `%25`, every
/// other character stays, and texts that follow each other are escaped one
/// after the other.
pub proof fn escaping(a: Seq<char>, b: Seq<char>, c: char)
    ensures
        escape_percent(Seq::empty()) == Seq::<char>::empty(),
        c != '%' ==> escape_percent(seq![c]) == seq![c],
        escape_percent(seq!['%']) == seq!['%', '2', '5'],
        escape_percent(a + b) == escape_percent(a) + escape_percent(b),
    decreases b.len(),
{
    reveal_with_fuel(escape_percent, 2);
    assert(seq![c].drop_last() =~= Seq::<char>::empty());
    assert(seq!['%'].drop_last() =~= Seq::<char>::empty());
    assert(escape_percent(Seq::<char>::empty()) =~= Seq::<char>::empty());
    if b.len() > 0 {
        escaping(a, b.drop_last(), c);
        assert((a + b).drop_last() =~= a + b.drop_last());
        assert(escape_percent(a + b) =~= escape_percent(a) + escape_percent(b));
    } else {
        assert(a + b =~= a);
        assert(escape_percent(a) + escape_percent(b) =~= escape_percent(a));
    }
}

/// An optional text is itself, or nothing.
pub proof fn optional_texts(s: String, t: Seq<char>)
    ensures
        opt_text(Some(s)) == Some(s@),
        opt_text(None) is None,
        text_or_empty(Some(t)) == t,
        text_or_empty(None) == Seq::<char>::empty(),
{
}

/// Members are those of objects, under exactly their keys; the text of a member
/// is that of a string.
pub proof fn members(v: Json, key: Seq<char>, m: Value, t: Seq<char>)
    ensures
        v.member(key) == Some(m) <==> (v is Object && v->Object_0.contains_key(key)
            && v->Object_0[key] == m),
        v.member_text(key) == Some(t) <==> (v is Object && v->Object_0.contains_key(key)
            && json_view(v->Object_0[key]) == Json::Text(t)),
{
}

/// What an object holds is what each of its members holds, under the same keys.
pub proof fn object_contents(v: Value, held: Map<Seq<char>, Json>)
    ensures
        object_views(v) == Some(held) <==> {
            &&& json_view(v) is Object
            &&& json_view(v)->Object_0.dom() =~= held.dom()
            &&& forall|k: Seq<char>| #[trigger]
                held.contains_key(k) ==> held[k] == json_view(json_view(v)->Object_0[k])
        },
{
    if json_view(v) is Object {
        let members = json_view(v)->Object_0;
        assert(member_views(members).dom() =~= members.dom());
        if members.dom() =~= held.dom() && (forall|k: Seq<char>| #[trigger]
            held.contains_key(k) ==> held[k] == json_view(members[k])) {
            assert forall|k: Seq<char>| #[trigger] held.contains_key(k) implies member_views(
                members,
            )[k] == held[k] by {
                assert(members.contains_key(k));
            }
            assert(member_views(members) =~= held);
        }
        if member_views(members) == held {
            assert forall|k: Seq<char>| #[trigger] held.contains_key(k) implies held[k]
                == json_view(members[k]) by {
                assert(members.contains_key(k));
            }
        }
    }
}

/// The string under `key`, or the empty text.
pub open spec fn string_under(members: Map<Seq<char>, Value>, key: Seq<char>) -> Seq<char> {
    if members.contains_key(key) && json_view(members[key]) is Text {
        json_view(members[key])->Text_0
    } else {
        Seq::empty()
    }
}

/// Whether the member `type` is the string `error`.
pub open spec fn is_error_object(members: Map<Seq<char>, Value>) -> bool {
    members.contains_key("type"@) && json_view(members["type"@]) == Json::Text("error"@)
}

/// An object of type `error` is a server error with the strings `code` and
/// `message`, or empty ones, and without a status, whatever else it holds.
pub proof fn error_objects(v: Value)
    requires
        json_view(v) is Object,
        is_error_object(json_view(v)->Object_0),
    ensures
        ({
            let held = json_view(v)->Object_0;
            parsed_event(Ok(v)) == EventView::ServerError(
                ServerErrorView {
                    code: string_under(held, "code"@),
                    message: string_under(held, "message"@),
                    status: 0,
                },
            )
        }),
{
}

/// Any other object that names a sender is a message from exactly that sender,
/// with exactly the payload `data`, or `null` where there is none.
pub proof fn message_objects(v: Value, sender: Seq<char>)
    requires
        json_view(v) is Object,
        !is_error_object(json_view(v)->Object_0),
        json_view(v)->Object_0.contains_key("from"@),
        json_view(json_view(v)->Object_0["from"@]) == Json::Text(sender),
        sender.len() > 0,
    ensures
        ({
            let held = json_view(v)->Object_0;
            &&& parsed_event(Ok(v)) is Message
            &&& parsed_event(Ok(v))->from == sender
            &&& held.contains_key("data"@) ==> parsed_event(Ok(v))->data == held["data"@]
            &&& !held.contains_key("data"@) ==> parsed_event(Ok(v))->data == null_value()
        }),
{
}

/// Everything else that is JSON is a frame without a sender.
pub proof fn senderless_values(v: Value)
    requires
        json_view(v) is Object ==> {
            &&& !is_error_object(json_view(v)->Object_0)
            &&& string_under(json_view(v)->Object_0, "from"@).len() == 0
        },
    ensures
        parsed_event(Ok(v)) == EventView::Decode(
            ErrorView::Transport("server frame missing 'from' field"@),
        ),
{
}

/// What is no JSON is a decode failure with the error of the parser.
pub proof fn unparsed_texts(e: JsonError)
    ensures
        parsed_event(Err(e)) == EventView::Decode(ErrorView::Serde(e)),
{
}

/// The `null` of a frame without data is the JSON `null`.
pub proof fn null_is_null(v: Value)
    requires
        json_view(v) == Json::Null,
    ensures
        json_view(null_value()) == Json::Null,
{
}

/// The members that are picked out of a frame are those of these names.
pub proof fn envelopes(v: Json)
    ensures
        envelope_of(v) == (EnvelopeView {
            kind: v.member_text("type"@),
            code: v.member_text("code"@),
            message: v.member_text("message"@),
            from: v.member_text("from"@),
            data: v.member("data"@),
        }),
{
}

/// What picked members say: an error where the type says so; else a message
/// from exactly the sender, with exactly the payload; else nothing readable.
pub proof fn envelope_meanings(m: EnvelopeView)
    ensures
        ({
            let event = envelope_event(m);
            if m.kind == Some("error"@) {
                &&& event is ServerError
                &&& event->ServerError_0.status == 0
                &&& m.code is Some ==> event->ServerError_0.code == m.code->0
                &&& m.code is None ==> event->ServerError_0.code.len() == 0
                &&& m.message is Some ==> event->ServerError_0.message == m.message->0
                &&& m.message is None ==> event->ServerError_0.message.len() == 0
            } else if m.from is Some && m.from->0.len() > 0 {
                &&& event is Message
                &&& event->from == m.from->0
                &&& m.data is Some ==> event->data == m.data->0
                &&& m.data is None ==> event->data == null_value()
            } else {
                event == EventView::Decode(
                    ErrorView::Transport("server frame missing 'from' field"@),
                )
            }
        }),
{
}

/// A text frame says what its text says; a binary frame says what a text frame
/// with the same characters says, or that it has none; control frames say
/// nothing.
pub proof fn frames(text: Seq<char>, bytes: Seq<u8>)
    ensures
        frame_event(FrameView::Text(text)) == Some(parsed_event(json_parsed(text))),
        valid_utf8(bytes) ==> frame_event(FrameView::Binary(bytes)) == frame_event(
            FrameView::Text(decode_utf8(bytes)),
        ),
        !valid_utf8(bytes) ==> frame_event(FrameView::Binary(bytes)) == Some(
            EventView::Decode(
                ErrorView::Transport("non-utf8 binary frame: "@ + utf8_error_text(bytes)),
            ),
        ),
        frame_event(FrameView::Ping) is None,
        frame_event(FrameView::Pong) is None,
        frame_event(FrameView::Raw) is None,
{
}

/// A close without a frame, or with 1000 or 1001, is clean; every other one is a
/// lost connection that names exactly its code and reason.
pub proof fn closes(code: u16, reason: Seq<char>)
    ensures
        ({
            let event = close_event(Some(CloseFrameView { code, reason }));
            if code == 1000 || code == 1001 {
                event is Closed
            } else {
                event == EventView::ConnectionLost(
                    ErrorView::Transport(
                        "connection closed: "@ + decimal_text(code as nat) + " "@ + reason,
                    ),
                )
            }
        }),
        close_event(None) is Closed,
        frame_event(FrameView::Close(Some(CloseFrameView { code, reason }))) == Some(
            close_event(Some(CloseFrameView { code, reason })),
        ),
        frame_event(FrameView::Close(None)) == Some(EventView::Closed),
{
}

/// An outgoing frame is an object with exactly the members `to` and `data`: the
/// target as a string, and the payload.
pub proof fn outgoing_frames(frame: Value, to: Seq<char>, data: Value, text: Seq<char>)
    ensures
        is_outgoing(frame, to, data) <==> {
            &&& json_view(frame) is Object
            &&& json_view(frame)->Object_0.contains_key("to"@)
            &&& json_view(json_view(frame)->Object_0["to"@]) == Json::Text(to)
            &&& json_view(frame)->Object_0.contains_key("data"@)
            &&& json_view(frame)->Object_0["data"@] == data
            &&& forall|k: Seq<char>| #[trigger]
                json_view(frame)->Object_0.contains_key(k) ==> k == "to"@ || k == "data"@
        },
        is_outgoing_text(text, to, data) ==> exists|f: Value| #[trigger]
            is_outgoing(f, to, data) && text == json_text(f),
{
    if json_view(frame) is Object {
        let held = json_view(frame)->Object_0;
        if held.contains_key("to"@) && held.contains_key("data"@) && (forall|k: Seq<char>|
         #[trigger]
            held.contains_key(k) ==> k == "to"@ || k == "data"@) {
            assert forall|k: Seq<char>| held.dom().contains(k) <==> set!["to"@, "data"@].contains(
                k,
            ) by {
                assert(held.dom().contains(k) == held.contains_key(k));
            }
            assert(held.dom() =~= set!["to"@, "data"@]);
        }
        if is_outgoing(frame, to, data) {
            assert(set!["to"@, "data"@].contains("to"@));
            assert(set!["to"@, "data"@].contains("data"@));
            assert forall|k: Seq<char>| #[trigger] held.contains_key(k) implies k == "to"@ || k
                == "data"@ by {
                assert(set!["to"@, "data"@].contains(k));
            }
        }
    }
}

/// The URL of a socket is the endpoint, a slash and the address; slashes at the
/// end of the endpoint are not doubled.
pub proof fn dial_urls(endpoint: Seq<char>, socket_id: Seq<char>)
    requires
        endpoint.len() > 0 ==> endpoint.last() != '/',
    ensures
        dial_url_text(endpoint, socket_id) == endpoint + "/"@ + socket_id,
        dial_url_text(endpoint.push('/'), socket_id) == endpoint + "/"@ + socket_id,
{
    assert(endpoint.push('/').drop_last() =~= endpoint);
    reveal_with_fuel(trim_end_of, 2);
}

/// The credentials are the word `Bearer`, a space and the token; every byte but
/// a control character may stand in them, and of those the tab.
pub proof fn credentials(token: Seq<char>, text: Seq<char>, b: u8)
    ensures
        bearer(token) == "Bearer "@ + token,
        is_header_byte(b) <==> b == 9 || (32 <= b && b != 127),
        is_header_text(text) <==> forall|i: int|
            0 <= i < encode_utf8(text).len() ==> {
                let byte = #[trigger] encode_utf8(text)[i];
                byte == 9 || (32 <= byte && byte != 127)
            },
{
}

/// An authorized handshake names the host, asks for a websocket of version 13,
/// has one key, and carries the token as its credentials; it has no other
/// header field.
pub proof fn authorized_handshakes(
    headers: Map<Seq<char>, Seq<Seq<u8>>>,
    host: Seq<u8>,
    token: Seq<char>,
    name: Seq<char>,
)
    requires
        is_authorized(headers, host, token),
    ensures
        headers.contains_key("authorization"@),
        headers["authorization"@] == seq![encode_utf8("Bearer "@ + token)],
        headers["host"@] == seq![host],
        headers["connection"@] == seq![encode_utf8("Upgrade"@)],
        headers["upgrade"@] == seq![encode_utf8("websocket"@)],
        headers["sec-websocket-version"@] == seq![encode_utf8("13"@)],
        headers["sec-websocket-key"@].len() == 1,
        headers.contains_key(name) <==> (name == "authorization"@ || name == "host"@ || name
            == "connection"@ || name == "upgrade"@ || name == "sec-websocket-version"@ || name
            == "sec-websocket-key"@),
{
    reveal_strlit("authorization");
    reveal_strlit("host");
    reveal_strlit("connection");
    reveal_strlit("upgrade");
    reveal_strlit("sec-websocket-version");
    reveal_strlit("sec-websocket-key");
    assert("authorization"@.len() == 13);
    assert("host"@.len() == 4);
    assert("connection"@.len() == 10);
    assert("upgrade"@.len() == 7);
    assert("sec-websocket-version"@.len() == 21);
    assert("sec-websocket-key"@.len() == 17);
    let rest = headers.remove("authorization"@);
    assert(rest.dom().contains("host"@));
    assert(rest.dom().contains("connection"@));
    assert(rest.dom().contains("upgrade"@));
    assert(rest.dom().contains("sec-websocket-version"@));
    assert(rest.dom().contains("sec-websocket-key"@));
    if name != "authorization"@ {
        assert(headers.contains_key(name) == rest.dom().contains(name));
    }
}

/// A handshake that is answered with an HTTP status is a server error with
/// exactly that status, whether its body can be read or not: with the code and
/// message of the body where they are there, and with a message that names the
/// status where there is no body. Anything else is a transport error.
pub proof fn failed_handshakes(failure: DialFailure)
    ensures
        match failure {
            DialFailure::Http { status, body } => {
                let e = dial_error(failure);
                &&& e is Server
                &&& e->Server_0.status == status
                &&& match body {
                    Some(b) => {
                        &&& b.error_code is Some ==> e->Server_0.code == b.error_code->0@
                        &&& b.error_code is None ==> e->Server_0.code.len() == 0
                        &&& b.error_message is Some ==> e->Server_0.message == b.error_message->0@
                        &&& b.error_message is None ==> e->Server_0.message.len() == 0
                    },
                    None => {
                        &&& e->Server_0.code.len() == 0
                        &&& e->Server_0.message == "websocket dial failed with HTTP "@
                            + decimal_text(status as nat)
                    },
                }
            },
            DialFailure::Other(message) => dial_error(failure) == ErrorView::Transport(message@),
        },
{
}

/// The statuses that are fatal: 401, 403 and 404.
pub proof fn fatal_statuses(e: ServerErrorView)
    ensures
        e.is_fatal() <==> e.status == 401 || e.status == 403 || e.status == 404,
{
}

/// How errors read.
pub proof fn error_texts(server: ServerErrorView, api: ApiErrorView, t: Seq<char>, j: JsonError)
    ensures
        ErrorView::Server(server).text() == server.text(),
        ErrorView::Api(api).text() == api.text(),
        ErrorView::Transport(t).text() == "transport: "@ + t,
        ErrorView::Closed.text() == "agent closed"@,
        ErrorView::ReplyOnError.text() == "cannot reply on error event"@,
        ErrorView::Serde(j).text() == "serialization: "@ + json_error_text(j),
        api.text() == "api error (status "@ + decimal_text(api.status as nat) + "): "@
            + api.message,
        server.code.len() > 0 && server.status == 0 ==> server.text() == "["@ + server.code + "] "@
            + server.message,
        server.code.len() > 0 && server.status != 0 ==> server.text() == "["@ + server.code + "] "@
            + server.message + " (status "@ + decimal_text(server.status as nat) + ")"@,
        server.code.len() == 0 ==> server.text() == (ServerErrorView {
            code: "unknown"@,
            ..server
        }).text(),
{
    reveal_strlit("unknown");
    assert("unknown"@.len() == 7);
}

/// What is kept of an error is the error, but for a JSON failure, of which the
/// text is kept where it is fixed.
pub proof fn kept_errors(e: ErrorView, j: JsonError)
    ensures
        !(e is Serde) ==> e.kept() == e && e.has_fixed_text(),
        ErrorView::Serde(j).has_fixed_text() <==> !json_error_is_io(j),
        !json_error_is_io(j) ==> ErrorView::Serde(j).kept() == ErrorView::Transport(
            "serialization: "@ + json_error_text(j),
        ),
        json_error_is_io(j) ==> ErrorView::Serde(j).kept() == ErrorView::Transport(
            "serialization: I/O error"@,
        ),
{
}

/// Errors convert into the variant that holds them, unchanged.
pub proof fn converted_errors(server: ServerError, api: ApiError, j: JsonError)
    ensures
        <Error as FromSpec<ServerError>>::from_spec(server) == Error::Server(server),
        <Error as FromSpec<ApiError>>::from_spec(api) == Error::Api(api),
        <Error as FromSpec<JsonError>>::from_spec(j) == Error::Serde(j),
{
}

/// A request of a client has the method and path that are asked for, on the
/// client's base URL, with the client's token, and a body exactly if one is
/// asked for.
pub proof fn client_requests(
    c: ClientView,
    r: Request,
    method: Method,
    path: Seq<char>,
    body: Option<Map<Seq<char>, Json>>,
)
    ensures
        c.requests(r, method, path, body) <==> {
            &&& r.method == method
            &&& r.url@ == c.base_url + path
            &&& r.token@ == c.token
            &&& r.body is Some <==> body is Some
            &&& body is Some ==> object_views(r.body->0) == body
        },
{
}

/// The paths of a socket and of a channel's members hold the escaped address.
pub proof fn resource_paths(id: Seq<char>)
    ensures
        socket_path(id) == "/sockets/"@ + escape_percent(id),
        members_path(id) == "/channels/"@ + escape_percent(id) + "/members"@,
{
}

/// A body of one member has that member, with that string, and no other.
pub proof fn single_members(key: Seq<char>, value: Seq<char>, other: Seq<char>)
    ensures
        text_member(key, value).contains_key(other) <==> other == key,
        text_member(key, value)[key] == Json::Text(value),
{
}

/// Whether the member `key` is the given string, and is missing where there is
/// none.
pub open spec fn carries(
    members: Map<Seq<char>, Json>,
    key: Seq<char>,
    value: Option<String>,
) -> bool {
    match value {
        Some(v) => members.contains_key(key) && members[key] == Json::Text(v@),
        None => !members.contains_key(key),
    }
}

/// A socket is created with each of the fields that are given, under its own
/// name, and with nothing else.
pub proof fn socket_fields(req: CreateSocketRequest, other: Seq<char>)
    ensures
        carries(req.fields(), "name"@, req.name),
        carries(req.fields(), "agent_name"@, req.agent_name),
        carries(req.fields(), "agent_description"@, req.agent_description),
        carries(req.fields(), "vibe"@, req.vibe),
        req.fields().contains_key(other) ==> other == "name"@ || other == "agent_name"@ || other
            == "agent_description"@ || other == "vibe"@,
{
    reveal_strlit("name");
    reveal_strlit("agent_name");
    reveal_strlit("agent_description");
    reveal_strlit("vibe");
    assert("name"@.len() == 4 && "vibe"@.len() == 4);
    assert("name"@[0] == 'n' && "vibe"@[0] == 'v');
    assert("agent_name"@.len() == 10 && "agent_description"@.len() == 17);
}

/// A profile is updated with each of the fields that are given, under its own
/// name, and with nothing else.
pub proof fn profile_fields(req: UpdateProfileRequest, other: Seq<char>)
    ensures
        carries(req.fields(), "agent_name"@, req.agent_name),
        carries(req.fields(), "agent_description"@, req.agent_description),
        req.fields().contains_key(other) ==> other == "agent_name"@ || other
            == "agent_description"@,
{
    reveal_strlit("agent_name");
    reveal_strlit("agent_description");
    assert("agent_name"@.len() == 10 && "agent_description"@.len() == 17);
}

/// A failed request is reported with the status of its response, whatever the
/// body is and however it parses.
pub proof fn reported_status(status: u16, body: Seq<char>, parsed: Result<Value, JsonError>)
    ensures
        api_error_of(status, body, parsed).status == status,
{
}

/// Whether the object has a string under `key`.
pub open spec fn has_string(members: Map<Seq<char>, Value>, key: Seq<char>) -> bool {
    members.contains_key(key) && json_view(members[key]) is Text
}

/// A failed request is reported with the string `message` of its body, else
/// with the string `error`, else with the body as it is; an empty body is an
/// unknown error. The status makes no difference.
pub proof fn reported_message(status: u16, body: Seq<char>, parsed: Result<Value, JsonError>)
    ensures
        ({
            let message = api_error_of(status, body, parsed).message;
            if body.len() == 0 {
                message == "unknown error"@
            } else if parsed is Ok && json_view(parsed->Ok_0) is Object {
                let held = json_view(parsed->Ok_0)->Object_0;
                if has_string(held, "message"@) {
                    json_view(held["message"@]) == Json::Text(message)
                } else if has_string(held, "error"@) {
                    json_view(held["error"@]) == Json::Text(message)
                } else {
                    message == body
                }
            } else {
                message == body
            }
        }),
{
}

/// Half of the milliseconds of a delay, rounded down, for every delay whose
/// milliseconds a `u64` can count; longer ones start over.
pub proof fn halves(backoff: nat)
    ensures
        backoff < 0x1_0000_0000_0000_0000 * 1_000_000 ==> half_millis(backoff) * 2_000_000
            <= backoff < (half_millis(backoff) + 1) * 2_000_000,
        half_millis(backoff + 0x1_0000_0000_0000_0000 * 1_000_000) == half_millis(backoff),
{
    let millis = backoff / 1_000_000;
    let longer = (backoff + 0x1_0000_0000_0000_0000 * 1_000_000) as nat;
    assert(longer / 1_000_000 == millis + 0x1_0000_0000_0000_0000);
    assert((millis + 0x1_0000_0000_0000_0000) % 0x1_0000_0000_0000_0000 == millis
        % 0x1_0000_0000_0000_0000);
    if backoff < 0x1_0000_0000_0000_0000 * 1_000_000 {
        assert(millis < 0x1_0000_0000_0000_0000);
        assert(millis % 0x1_0000_0000_0000_0000 == millis);
    }
}

/// A jitter is any number of milliseconds below half of the delay, or zero.
pub proof fn jitters(backoff: nat, millis: nat)
    ensures
        half_millis(backoff) > 0 ==> (is_jitter(backoff, millis) <==> millis < half_millis(backoff)),
        half_millis(backoff) == 0 ==> (is_jitter(backoff, millis) <==> millis == 0),
{
}

/// A delay is the backoff and its jitter, whole as long as that is within the
/// maximum, and the maximum beyond; a backoff that exceeds the maximum by
/// itself is not cut.
pub proof fn delays(backoff: nat, millis: nat, max_backoff: nat)
    ensures
        backoff + millis * 1_000_000 <= max_backoff ==> jittered(backoff, millis, max_backoff)
            == backoff + millis * 1_000_000,
        backoff <= max_backoff && backoff + millis * 1_000_000 > max_backoff ==> jittered(
            backoff,
            millis,
            max_backoff,
        ) == max_backoff,
        backoff > max_backoff ==> jittered(backoff, millis, max_backoff) == backoff + millis
            * 1_000_000,
{
}

/// The next backoff is twice the last one or the maximum, whichever is less.
pub proof fn next_backoffs(backoff: nat, max_backoff: nat)
    ensures
        next_backoff(backoff, max_backoff) <= 2 * backoff,
        next_backoff(backoff, max_backoff) <= max_backoff,
        next_backoff(backoff, max_backoff) == 2 * backoff || next_backoff(backoff, max_backoff)
            == max_backoff,
{
}

/// An error is viewed with every one of its parts.
pub proof fn error_views(e: Error, server: ServerError, api: ApiError)
    ensures
        match e {
            Error::Server(x) => e@ == ErrorView::Server(x@),
            Error::Api(x) => e@ == ErrorView::Api(x@),
            Error::Transport(t) => e@ == ErrorView::Transport(t@),
            Error::Closed => e@ is Closed,
            Error::ReplyOnError => e@ is ReplyOnError,
            Error::Serde(x) => e@ == ErrorView::Serde(x),
        },
        server@.code == server.code@,
        server@.message == server.message@,
        server@.status == server.status,
        api@.status == api.status,
        api@.message == api.message@,
        outcome_view(Ok(())) is Ok,
        outcome_view(Err(e)) == Err::<(), ErrorView>(e@),
{
}

/// Frames and events are viewed with every one of their parts.
pub proof fn wire_views(f: Frame, e: Event, m: Envelope, o: Outgoing, c: CloseFrame)
    ensures
        match f {
            Frame::Text(t) => f@ == FrameView::Text(t@),
            Frame::Binary(b) => f@ == FrameView::Binary(b@),
            Frame::Close(Some(x)) => f@ == FrameView::Close(
                Some(CloseFrameView { code: x.code, reason: x.reason@ }),
            ),
            Frame::Close(None) => f@ == FrameView::Close(None),
            Frame::Ping => f@ is Ping,
            Frame::Pong => f@ is Pong,
            Frame::Raw => f@ is Raw,
        },
        match e {
            Event::Message { from, data } => e@ == (EventView::Message { from: from@, data }),
            Event::ServerError(x) => e@ == EventView::ServerError(x@),
            Event::Decode(x) => e@ == EventView::Decode(x@),
            Event::Closed => e@ is Closed,
            Event::ConnectionLost(x) => e@ == EventView::ConnectionLost(x@),
        },
        m@ == (EnvelopeView {
            kind: opt_text(m.kind),
            code: opt_text(m.code),
            message: opt_text(m.message),
            from: opt_text(m.from),
            data: m.data,
        }),
        o@ == (OutgoingView { to: o.to@, data: o.data }),
        close_frame_view(Some(c)) == Some(CloseFrameView { code: c.code, reason: c.reason@ }),
        close_frame_view(None) is None,
{
}

/// What happens to a connection, and what is to be done, are viewed with every
/// one of their parts.
pub proof fn step_views(i: Input, s: Step, p: Phase, o: CycleOutcome, k: Config)
    ensures
        match i {
            Input::Started => i@ is Started,
            Input::Dialed(Ok(_)) => i@ == InputView::Dialed(Ok(())),
            Input::Dialed(Err(e)) => i@ == InputView::Dialed(Err(e@)),
            Input::Cancelled => i@ is Cancelled,
            Input::Request(m) => i@ == InputView::Request(m@),
            Input::Written(Ok(_)) => i@ == InputView::Written(Ok(())),
            Input::Written(Err(e)) => i@ == InputView::Written(Err(e@)),
            Input::Frame(f) => i@ == InputView::Frame(f@),
            Input::Failed(t) => i@ == InputView::Failed(t@),
            Input::Ended => i@ is Ended,
            Input::HungUp { connected_for } => i@ == (InputView::HungUp {
                connected_for: connected_for@,
            }),
            Input::Slept => i@ is Slept,
        },
        s@.action == s.action,
        s.deliver is Some <==> s@.deliver is Some,
        s.deliver is Some ==> s@.deliver->0 == s.deliver->0@,
        s.transmit is Some <==> s@.transmit is Some,
        s.transmit is Some ==> s@.transmit->0 == s.transmit->0@,
        s.answer is Some <==> s@.answer is Some,
        s.answer is Some ==> s@.answer->0 == outcome_view(s.answer->0),
        match p {
            Phase::Idle => p@ is Idle,
            Phase::Dialing => p@ is Dialing,
            Phase::Connected => p@ is Connected,
            Phase::Transmitting => p@ is Transmitting,
            Phase::Closing(x) => p@ == PhaseView::Closing(x@),
            Phase::Sleeping => p@ is Sleeping,
            Phase::Stopped => p@ is Stopped,
        },
        match o {
            CycleOutcome::Clean => o@ is Clean,
            CycleOutcome::Error(e) => o@ == OutcomeView::Error(e@),
            CycleOutcome::Fatal(e) => o@ == OutcomeView::Fatal(e@),
            CycleOutcome::Stopped => o@ is Stopped,
        },
        k@ == (ConfigView {
            endpoint: k.endpoint@,
            min_backoff: k.min_backoff@,
            max_backoff: k.max_backoff@,
        }),
{
}

/// What a supervisor remembers, and what happens to a message or a request, is
/// viewed with every one of its parts.
pub proof fn state_views(s: Supervisor, e: SendEvent, t: SendStep, r: ResponseStep)
    ensures
        s@.cancelled == s.cancelled,
        s.last_err is Some <==> s@.last_err is Some,
        s.last_err is Some ==> s@.last_err->0 == s.last_err->0@,
        s.fatal_err is Some <==> s@.fatal_err is Some,
        s.fatal_err is Some ==> s@.fatal_err->0 == s.fatal_err->0@,
        s@.closed == s.closed,
        s@.ready == s.ready,
        s@.done == s.done,
        s@.backoff == s.backoff@,
        s@.phase == s.phase@,
        match e {
            SendEvent::Begin => e@ is Begin,
            SendEvent::Changed => e@ is Changed,
            SendEvent::WatchLost => e@ is WatchLost,
            SendEvent::QueueLost => e@ is QueueLost,
            SendEvent::Replied(Ok(_)) => e@ == SendEventView::Replied(Ok(())),
            SendEvent::Replied(Err(x)) => e@ == SendEventView::Replied(Err(x@)),
            SendEvent::ReplyLost => e@ is ReplyLost,
        },
        match t {
            SendStep::Wait => t@ is Wait,
            SendStep::Enqueue(m) => t@ == SendStepView::Enqueue(m@),
            SendStep::Finish(Ok(_)) => t@ == SendStepView::Finish(Ok(())),
            SendStep::Finish(Err(x)) => t@ == SendStepView::Finish(Err(x@)),
        },
        match r {
            ResponseStep::Decode => r@ is Decode,
            ResponseStep::Explain => r@ is Explain,
            ResponseStep::Finish(x) => r@ == ResponseStepView::Finish(x@),
        },
{
}

} // verus!
