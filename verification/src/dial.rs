//! Opening a connection: the handshake request, and what a failed handshake
//! means.

use crate::errors::{Error, ErrorView, ServerError, ServerErrorView};
use crate::text::{
    decimal, decimal_text, opt_text, or_empty, text_or_empty, trim_end_of, trim_end_slashes,
};
use http::{HeaderValue, Request as HttpRequest};
use tokio_tungstenite::tungstenite::client::IntoClientRequest;
use vstd::prelude::*;
use vstd::string::*;
use vstd::utf8::encode_utf8;

verus! {

#[verifier::external_type_specification]
#[verifier::external_body]
#[verifier::reject_recursive_types(T)]
pub struct ExHttpRequest<T>(HttpRequest<T>);

#[verifier::external_type_specification]
#[verifier::external_body]
pub struct ExHeaderValue(HeaderValue);

/// The header fields of a request: the values of each name, names in lower
/// case.
pub uninterp spec fn request_headers(r: HttpRequest<()>) -> Map<Seq<char>, Seq<Seq<u8>>>;

/// The URI of a request, as text.
pub uninterp spec fn request_uri(r: HttpRequest<()>) -> Seq<char>;

/// The HTTP method of a request.
pub uninterp spec fn request_method(r: HttpRequest<()>) -> Seq<char>;

/// The bytes of a header value.
pub uninterp spec fn header_bytes(v: HeaderValue) -> Seq<u8>;

/// What `into_client_request` makes of a URL: the URI of the request and the
/// host it is for, or the message of the error.
pub uninterp spec fn handshake_target(url: Seq<char>) -> Result<(Seq<char>, Seq<u8>), Seq<char>>;

/// The header fields that every handshake request has.
pub open spec fn handshake_names() -> Set<Seq<char>> {
    set![
        "host"@,
        "connection"@,
        "upgrade"@,
        "sec-websocket-version"@,
        "sec-websocket-key"@,
    ]
}

/// Whether these are the header fields of a handshake request for `host`. The
/// key is random, so its value is left open.
pub open spec fn is_handshake(headers: Map<Seq<char>, Seq<Seq<u8>>>, host: Seq<u8>) -> bool {
    &&& headers.dom() == handshake_names()
    &&& headers["host"@] == seq![host]
    &&& headers["connection"@] == seq![encode_utf8("Upgrade"@)]
    &&& headers["upgrade"@] == seq![encode_utf8("websocket"@)]
    &&& headers["sec-websocket-version"@] == seq![encode_utf8("13"@)]
    &&& headers["sec-websocket-key"@].len() == 1
}

/// `IntoClientRequest::into_client_request` of `tungstenite` on a URL: a
/// GET request for it with the fields of a handshake, or an error. The URI, the host and the error's
/// message are a function of the URL, named [`handshake_target`]; the key among
/// the header fields is random.
#[verifier::external_body]
fn client_request(url: &str) -> (r: Result<HttpRequest<()>, String>)
    ensures
        match r {
            Ok(req) => {
                &&& handshake_target(url@) is Ok
                &&& request_method(req) == "GET"@
                &&& request_uri(req) == handshake_target(url@)->Ok_0.0
                &&& is_handshake(request_headers(req), handshake_target(url@)->Ok_0.1)
            },
            Err(message) => {
                &&& handshake_target(url@) is Err
                &&& message@ == handshake_target(url@)->Err_0
            },
        },
{
    match url.into_client_request() {
        Ok(req) => Ok(req),
        Err(e) => Err(e.to_string()),
    }
}

/// Whether a header value may hold the byte: anything but control characters,
/// of which only the tab may stand.
pub open spec fn is_header_byte(b: u8) -> bool {
    (b >= 32 && b != 127) || b == 9
}

/// Whether `text` can be a header value.
pub open spec fn is_header_text(text: Seq<char>) -> bool {
    forall|i: int|
        0 <= i < encode_utf8(text).len() ==> is_header_byte(#[trigger] encode_utf8(text)[i])
}

/// `str::parse::<HeaderValue>` of `http`: the value with the bytes of the text
/// where each of them may stand in a header value, and otherwise an error whose
/// message is always the same.
#[verifier::external_body]
fn header_value(text: &str) -> (r: Result<HeaderValue, String>)
    ensures
        match r {
            Ok(v) => is_header_text(text@) && header_bytes(v) == encode_utf8(text@),
            Err(message) => !is_header_text(text@) && message@ == "failed to parse header value"@,
        },
{
    match text.parse::<HeaderValue>() {
        Ok(v) => Ok(v),
        Err(e) => Err(e.to_string()),
    }
}

/// Whether `name` is the name of a header field in lower-case letters and
/// hyphens.
pub open spec fn is_plain_name(name: Seq<char>) -> bool {
    &&& 0 < name.len() < 100
    &&& forall|i: int| 0 <= i < name.len() ==> ('a' <= #[trigger] name[i] <= 'z' || name[i] == '-')
}

/// `HeaderMap::insert` of `http` on the header fields of a request: the name
/// now has this one value, everything else is as before. It panics on an
/// invalid name and on a map that is full.
#[verifier::external_body]
fn insert_header(req: &mut HttpRequest<()>, name: &'static str, value: HeaderValue)
    requires
        is_plain_name(name@),
        request_headers(*old(req)).dom().finite(),
        request_headers(*old(req)).dom().len() < 100,
    ensures
        request_headers(*final(req)) == request_headers(*old(req)).insert(
            name@,
            seq![header_bytes(value)],
        ),
        request_method(*final(req)) == request_method(*old(req)),
        request_uri(*final(req)) == request_uri(*old(req)),
{
    req.headers_mut().insert(name, value);
}

/// The URL of a socket: the endpoint without trailing slashes, a slash, and the
/// socket's address.
pub open spec fn dial_url_text(endpoint: Seq<char>, socket_id: Seq<char>) -> Seq<char> {
    trim_end_of(endpoint, '/') + "/"@ + socket_id
}

/// The URL of a socket.
pub fn dial_url(endpoint: &str, socket_id: &str) -> (r: String)
    ensures
        r@ == dial_url_text(endpoint@, socket_id@),
{
    let mut url = trim_end_slashes(endpoint);
    url.append("/");
    url.append(socket_id);
    url
}

/// The credentials that `token` is sent as.
pub open spec fn bearer(token: Seq<char>) -> Seq<char> {
    "Bearer "@ + token
}

/// Whether these are the header fields of a handshake request for `host` that
/// also carries `token`, once, as its credentials.
pub open spec fn is_authorized(
    headers: Map<Seq<char>, Seq<Seq<u8>>>,
    host: Seq<u8>,
    token: Seq<char>,
) -> bool {
    &&& is_handshake(headers.remove("authorization"@), host)
    &&& headers.contains_key("authorization"@)
    &&& headers["authorization"@] == seq![encode_utf8(bearer(token))]
}

/// The host that a handshake request names.
pub open spec fn request_host(r: HttpRequest<()>) -> Seq<u8> {
    request_headers(r)["host"@][0]
}

/// Adds the credentials to a handshake request, or tells why there is none.
pub fn authorize(built: Result<HttpRequest<()>, String>, token: &str) -> (r: Result<
    HttpRequest<()>,
    Error,
>)
    requires
        built matches Ok(req) ==> is_handshake(request_headers(req), request_host(req)),
    ensures
        match built {
            Err(message) => r matches Err(e) && e@ == ErrorView::Transport(
                "build request: "@ + message@,
            ),
            Ok(req) => if is_header_text(bearer(token@)) {
                &&& r matches Ok(out)
                &&& request_method(out) == request_method(req)
                &&& request_uri(out) == request_uri(req)
                &&& is_authorized(request_headers(out), request_host(req), token@)
            } else {
                &&& r matches Err(e)
                &&& e@ == ErrorView::Transport("invalid token: failed to parse header value"@)
            },
        },
{
    let mut req = match built {
        Ok(req) => req,
        Err(message) => {
            return Err(Error::Transport("build request: ".to_owned().concat(message.as_str())));
        },
    };
    let ghost before = request_headers(req);
    match header_value("Bearer ".to_owned().concat(token).as_str()) {
        Ok(value) => {
            proof {
                reveal_strlit("authorization");
                reveal_strlit("host");
                reveal_strlit("connection");
                reveal_strlit("upgrade");
                reveal_strlit("sec-websocket-version");
                reveal_strlit("sec-websocket-key");
                assert("authorization"@.len() == 13);
                assert(!handshake_names().contains("authorization"@)) by {
                    assert("host"@.len() == 4);
                    assert("connection"@.len() == 10);
                    assert("upgrade"@.len() == 7);
                    assert("sec-websocket-version"@.len() == 21);
                    assert("sec-websocket-key"@.len() == 17);
                }
            }
            insert_header(&mut req, "authorization", value);
            proof {
                assert(request_headers(req).remove("authorization"@) =~= before);
            }
            Ok(req)
        },
        Err(message) => {
            let text = "invalid token: ".to_owned().concat(message.as_str());
            proof {
                reveal_strlit("invalid token: ");
                reveal_strlit("failed to parse header value");
                reveal_strlit("invalid token: failed to parse header value");
                assert(text@ =~= "invalid token: failed to parse header value"@);
            }
            Err(Error::Transport(text))
        },
    }
}

/// The request that opens a connection to `endpoint/socket_id` with Bearer auth.
pub fn dial_request(endpoint: &str, token: &str, socket_id: &str) -> (r: Result<
    HttpRequest<()>,
    Error,
>)
    ensures
        match handshake_target(dial_url_text(endpoint@, socket_id@)) {
            Err(message) => r matches Err(e) && e@ == ErrorView::Transport(
                "build request: "@ + message,
            ),
            Ok((uri, host)) => if is_header_text(bearer(token@)) {
                &&& r matches Ok(out)
                &&& request_method(out) == "GET"@
                &&& request_uri(out) == uri
                &&& is_authorized(request_headers(out), host, token@)
            } else {
                &&& r matches Err(e)
                &&& e@ == ErrorView::Transport("invalid token: failed to parse header value"@)
            },
        },
{
    authorize(client_request(dial_url(endpoint, socket_id).as_str()), token)
}

/// What a server says about a handshake that it rejects.
#[derive(Debug)]
pub struct ServerErrorBody {
    pub error_code: Option<String>,
    pub error_message: Option<String>,
}

/// Why a connection could not be opened.
#[derive(Debug)]
pub enum DialFailure {
    /// The server answered with an HTTP status instead of an upgrade, and with
    /// this body, where it has one that can be read.
    Http { status: u16, body: Option<ServerErrorBody> },
    /// Anything else, with its message.
    Other(String),
}

/// What a failure to open a connection means.
pub open spec fn dial_error(failure: DialFailure) -> ErrorView {
    match failure {
        DialFailure::Http { status, body: Some(b) } => ErrorView::Server(
            ServerErrorView {
                code: text_or_empty(opt_text(b.error_code)),
                message: text_or_empty(opt_text(b.error_message)),
                status,
            },
        ),
        DialFailure::Http { status, body: None } => ErrorView::Server(
            ServerErrorView {
                code: Seq::empty(),
                message: "websocket dial failed with HTTP "@ + decimal_text(status as nat),
                status,
            },
        ),
        DialFailure::Other(message) => ErrorView::Transport(message@),
    }
}

/// The error that a failure to open a connection is reported as: a typed
/// [`ServerError`] when the server rejects the upgrade, or a transport error
/// otherwise.
pub fn map_dial_error(failure: DialFailure) -> (r: Error)
    ensures
        r@ == dial_error(failure),
{
    match failure {
        DialFailure::Http { status, body } => match body {
            Some(b) => Error::Server(
                ServerError::new(
                    or_empty(b.error_code),
                    or_empty(b.error_message),
                    status,
                ),
            ),
            None => {
                let mut message = "websocket dial failed with HTTP ".to_owned();
                message.append(decimal(status).as_str());
                Error::Server(ServerError::new(String::new(), message, status))
            },
        },
        DialFailure::Other(message) => Error::Transport(message),
    }
}

} // verus!
