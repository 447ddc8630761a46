//! REST API client for Agent Socket.
//!
//! Most users never need this: they create the socket in the dashboard once
//! and only connect in code. Use the [`Client`] for programmatic provisioning
//! of sockets, namespaces, and channels. It says which HTTP request each
//! operation makes and what a failed one means; sending is left to the caller.

use crate::errors::{ApiError, ApiErrorView, Error, ErrorView};
use crate::json::{json_parsed, json_view, member_str, object_views, parse, Json};
use crate::text::{escape_percent, trim_end_of, trim_end_slashes};
use crate::types::{single_text, CreateSocketRequest, UpdateProfileRequest};
use serde_json::{Error as JsonError, Value};
use vstd::prelude::*;
use vstd::string::*;

verus! {

/// Default REST API base URL.
pub const DEFAULT_BASE_URL: &'static str = "https://api.agent-socket.ai";

/// Seconds after which a request is given up.
pub const REQUEST_TIMEOUT_SECS: u64 = 30;

/// HTTP method of a request.
#[derive(Clone, Copy, Debug, PartialEq, Eq, Structural)]
pub enum Method {
    Get,
    Post,
    Patch,
    Delete,
}

/// One HTTP request: what to send where, with `token` as bearer token and
/// `body`, if any, as its JSON body.
#[derive(Debug)]
pub struct Request {
    pub method: Method,
    pub url: String,
    pub token: String,
    pub body: Option<Value>,
}

/// REST API client.
#[derive(Debug)]
pub struct Client {
    base_url: String,
    token: String,
}

/// A [`Client`] with its texts as characters.
pub struct ClientView {
    pub base_url: Seq<char>,
    pub token: Seq<char>,
}

impl View for Client {
    type V = ClientView;

    closed spec fn view(&self) -> ClientView {
        ClientView { base_url: self.base_url@, token: self.token@ }
    }
}

impl Clone for Client {
    fn clone(&self) -> (r: Self)
        ensures
            r == *self,
    {
        Client { base_url: self.base_url.clone(), token: self.token.clone() }
    }
}

impl ClientView {
    /// Whether `r` is the request of this client for `path` with `method` and
    /// with an object of these members, or nothing, as its body.
    pub open spec fn requests(
        self,
        r: Request,
        method: Method,
        path: Seq<char>,
        body: Option<Map<Seq<char>, Json>>,
    ) -> bool {
        &&& r.method == method
        &&& r.url@ == self.base_url + path
        &&& r.token@ == self.token
        &&& match body {
            Some(members) => r.body matches Some(b) && object_views(b) == Some(members),
            None => r.body is None,
        }
    }
}

/// The members of an object with one string member.
pub open spec fn text_member(key: Seq<char>, value: Seq<char>) -> Map<Seq<char>, Json> {
    Map::empty().insert(key, Json::Text(value))
}

pub open spec fn socket_path(socket_id: Seq<char>) -> Seq<char> {
    "/sockets/"@ + escape_percent(socket_id)
}

pub open spec fn members_path(channel_id: Seq<char>) -> Seq<char> {
    "/channels/"@ + escape_percent(channel_id) + "/members"@
}

/// `s` with every `%` written as `%25`. All other characters, `:` and `/`
/// among them, pass through unchanged.
pub fn encode(s: &str) -> (r: String)
    ensures
        r@ == escape_percent(s@),
{
    let mut r = String::new();
    proof {
        assert(s@.take(0) =~= seq![]);
    }
    for c in chars: s.chars()
        invariant
            chars.seq() == s@,
            r@ == escape_percent(s@.take(chars.index() as int)),
    {
        proof {
            assert(s@.take(chars.index() + 1).drop_last() =~= s@.take(chars.index() as int));
        }
        if c == '%' {
            r.push('%');
            r.push('2');
            r.push('5');
            proof {
                assert(r@ =~= escape_percent(s@.take(chars.index() as int)) + seq![
                    '%',
                    '2',
                    '5',
                ]);
            }
        } else {
            r.push(c);
        }
    }
    proof {
        assert(s@.take(s@.len() as int) =~= s@);
    }
    r
}

impl Client {
    /// Construct with the default base URL.
    pub fn new(token: String) -> (r: Self)
        ensures
            r@ == (ClientView { base_url: "https://api.agent-socket.ai"@, token: token@ }),
    {
        proof {
            reveal_strlit("https://api.agent-socket.ai");
        }
        Self::with_base_url(token, DEFAULT_BASE_URL)
    }

    /// Construct with a custom base URL (useful for staging / local), whose
    /// trailing slashes are dropped.
    pub fn with_base_url(token: String, base_url: &str) -> (r: Self)
        ensures
            r@ == (ClientView { base_url: trim_end_of(base_url@, '/'), token: token@ }),
    {
        Client { base_url: trim_end_slashes(base_url), token }
    }

    pub fn health(&self) -> (r: Request)
        ensures
            self@.requests(r, Method::Get, "/health"@, None),
    {
        self.request(Method::Get, "/health", None)
    }

    pub fn create_socket(&self, req: &CreateSocketRequest) -> (r: Request)
        ensures
            self@.requests(r, Method::Post, "/sockets"@, Some(req.fields())),
    {
        self.request(Method::Post, "/sockets", Some(req.body()))
    }

    pub fn delete_socket(&self, socket_id: &str) -> (r: Request)
        ensures
            self@.requests(r, Method::Delete, socket_path(socket_id@), None),
    {
        proof {
            reveal_strlit("");
            assert(socket_path(socket_id@) + ""@ =~= socket_path(socket_id@));
        }
        self.request(Method::Delete, socket_url(socket_id, "").as_str(), None)
    }

    pub fn list_sockets(&self) -> (r: Request)
        ensures
            self@.requests(r, Method::Get, "/sockets"@, None),
    {
        self.request(Method::Get, "/sockets", None)
    }

    pub fn get_socket_status(&self, socket_id: &str) -> (r: Request)
        ensures
            self@.requests(r, Method::Get, socket_path(socket_id@) + "/status"@, None),
    {
        self.request(Method::Get, socket_url(socket_id, "/status").as_str(), None)
    }

    pub fn update_profile(&self, socket_id: &str, req: &UpdateProfileRequest) -> (r: Request)
        ensures
            self@.requests(
                r,
                Method::Patch,
                socket_path(socket_id@) + "/profile"@,
                Some(req.fields()),
            ),
    {
        self.request(
            Method::Patch,
            socket_url(socket_id, "/profile").as_str(),
            Some(req.body()),
        )
    }

    pub fn update_vibe(&self, socket_id: &str, vibe: &str) -> (r: Request)
        ensures
            self@.requests(
                r,
                Method::Patch,
                socket_path(socket_id@) + "/vibe"@,
                Some(text_member("vibe"@, vibe@)),
            ),
    {
        self.request(
            Method::Patch,
            socket_url(socket_id, "/vibe").as_str(),
            Some(single_text("vibe", vibe)),
        )
    }

    pub fn create_namespace(&self, name: &str) -> (r: Request)
        ensures
            self@.requests(
                r,
                Method::Post,
                "/namespaces"@,
                Some(text_member("name"@, name@)),
            ),
    {
        self.request(Method::Post, "/namespaces", Some(single_text("name", name)))
    }

    pub fn list_namespaces(&self) -> (r: Request)
        ensures
            self@.requests(r, Method::Get, "/namespaces"@, None),
    {
        self.request(Method::Get, "/namespaces", None)
    }

    pub fn create_channel(&self, name: &str) -> (r: Request)
        ensures
            self@.requests(r, Method::Post, "/channels"@, Some(text_member("name"@, name@))),
    {
        self.request(Method::Post, "/channels", Some(single_text("name", name)))
    }

    pub fn list_channels(&self) -> (r: Request)
        ensures
            self@.requests(r, Method::Get, "/channels"@, None),
    {
        self.request(Method::Get, "/channels", None)
    }

    pub fn add_member(&self, channel_id: &str, socket_id: &str) -> (r: Request)
        ensures
            self@.requests(
                r,
                Method::Post,
                members_path(channel_id@),
                Some(text_member("socket_id"@, socket_id@)),
            ),
    {
        self.request(
            Method::Post,
            members_url(channel_id).as_str(),
            Some(single_text("socket_id", socket_id)),
        )
    }

    pub fn remove_member(&self, channel_id: &str, socket_id: &str) -> (r: Request)
        ensures
            self@.requests(
                r,
                Method::Delete,
                members_path(channel_id@) + "/"@ + escape_percent(socket_id@),
                None,
            ),
    {
        let mut path = members_url(channel_id);
        path.append("/");
        path.append(encode(socket_id).as_str());
        self.request(Method::Delete, path.as_str(), None)
    }

    pub fn list_members(&self, channel_id: &str) -> (r: Request)
        ensures
            self@.requests(r, Method::Get, members_path(channel_id@), None),
    {
        self.request(Method::Get, members_url(channel_id).as_str(), None)
    }

    fn request(&self, method: Method, path: &str, body: Option<Value>) -> (r: Request)
        ensures
            r.method == method,
            r.url@ == self@.base_url + path@,
            r.token@ == self@.token,
            r.body == body,
    {
        let mut url = self.base_url.clone();
        url.append(path);
        Request { method, url, token: self.token.clone(), body }
    }
}

fn socket_url(socket_id: &str, tail: &str) -> (r: String)
    ensures
        r@ == socket_path(socket_id@) + tail@,
{
    let mut path = "/sockets/".to_owned();
    path.append(encode(socket_id).as_str());
    path.append(tail);
    path
}

fn members_url(channel_id: &str) -> (r: String)
    ensures
        r@ == members_path(channel_id@),
{
    let mut path = "/channels/".to_owned();
    path.append(encode(channel_id).as_str());
    path.append("/members");
    path
}

/// What to do with what came of sending a request.
#[derive(Debug)]
pub enum ResponseStep {
    /// The request was answered: decode the body.
    Decode,
    /// The request was refused: read the body, which says why.
    Explain,
    /// There is no response: the request ends with this error.
    Finish(Error),
}

/// A [`ResponseStep`] with its texts as characters.
pub enum ResponseStepView {
    Decode,
    Explain,
    Finish(ErrorView),
}

impl View for ResponseStep {
    type V = ResponseStepView;

    open spec fn view(&self) -> ResponseStepView {
        match self {
            ResponseStep::Decode => ResponseStepView::Decode,
            ResponseStep::Explain => ResponseStepView::Explain,
            ResponseStep::Finish(e) => ResponseStepView::Finish(e@),
        }
    }
}

/// Decides what to do with a response that has the given status, or with a
/// request that could not be sent for the given reason. The statuses from 200
/// to 299 answer a request.
pub fn response_step(sent: Result<u16, String>) -> (r: ResponseStep)
    ensures
        r@ == match sent {
            Ok(status) => if 200 <= status < 300 {
                ResponseStepView::Decode
            } else {
                ResponseStepView::Explain
            },
            Err(reason) => ResponseStepView::Finish(
                ErrorView::Api(
                    ApiErrorView { status: 0, message: "request failed: "@ + reason@ },
                ),
            ),
        },
{
    match sent {
        Ok(status) => {
            if 200 <= status && status < 300 {
                ResponseStep::Decode
            } else {
                ResponseStep::Explain
            }
        },
        Err(reason) => ResponseStep::Finish(
            Error::Api(ApiError::new(0, "request failed: ".to_owned().concat(reason.as_str()))),
        ),
    }
}

/// The error of a response that could not be decoded, for the given reason.
pub fn decode_failed(reason: &str) -> (r: Error)
    ensures
        r@ == ErrorView::Api(
            ApiErrorView { status: 0, message: "decode response: "@ + reason@ },
        ),
{
    Error::Api(ApiError::new(0, "decode response: ".to_owned().concat(reason)))
}

/// The error that a response with this status and body reports, where the body
/// was parsed as JSON with the outcome `parsed`: its `message`, else its
/// `error`, else the body itself.
pub open spec fn api_error_of(
    status: u16,
    body: Seq<char>,
    parsed: Result<Value, JsonError>,
) -> ApiErrorView {
    let message = if body.len() == 0 {
        "unknown error"@
    } else {
        match parsed {
            Ok(v) => match json_view(v).member_text("message"@) {
                Some(m) => m,
                None => match json_view(v).member_text("error"@) {
                    Some(m) => m,
                    None => body,
                },
            },
            Err(_) => body,
        }
    };
    ApiErrorView { status, message }
}

/// The error that a response with this status and body reports, once the body
/// was parsed.
pub fn api_error_parsed(status: u16, body: &str, parsed: Result<Value, JsonError>) -> (r: ApiError)
    ensures
        r@ == api_error_of(status, body@, parsed),
{
    if body.is_empty() {
        return ApiError::new(status, "unknown error".to_owned());
    }
    if let Ok(v) = &parsed {
        if let Some(message) = member_str(v, "message") {
            return ApiError::new(status, message.to_owned());
        }
        if let Some(message) = member_str(v, "error") {
            return ApiError::new(status, message.to_owned());
        }
    }
    ApiError::new(status, body.to_owned())
}

/// The error that a response with this status and body reports.
pub fn api_error_from(status: u16, body: &str) -> (r: ApiError)
    ensures
        r@ == api_error_of(status, body@, json_parsed(body@)),
{
    api_error_parsed(status, body, parse(body))
}

} // verus!
