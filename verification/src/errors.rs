//! Error types for the Agent Socket client.

use crate::json::{error_is_io, error_text, json_error_is_io, json_error_text};
use crate::text::{decimal, decimal_text};
use vstd::prelude::*;
use vstd::string::*;

verus! {

/// All errors returned by the client.
#[derive(Debug)]
pub enum Error {
    /// Standardized error returned by the Agent Socket server.
    Server(ServerError),
    /// Error returned by the REST API.
    Api(ApiError),
    /// Transport-level I/O or protocol error.
    Transport(String),
    /// The agent is closed and will not accept further operations.
    Closed,
    /// A reply was attempted on an error event.
    ReplyOnError,
    /// JSON (de)serialization failure.
    Serde(serde_json::Error),
}

/// An [`Error`] with its texts as characters.
pub enum ErrorView {
    Server(ServerErrorView),
    Api(ApiErrorView),
    Transport(Seq<char>),
    Closed,
    ReplyOnError,
    Serde(serde_json::Error),
}

impl View for Error {
    type V = ErrorView;

    open spec fn view(&self) -> ErrorView {
        match self {
            Error::Server(e) => ErrorView::Server(e@),
            Error::Api(e) => ErrorView::Api(e@),
            Error::Transport(t) => ErrorView::Transport(t@),
            Error::Closed => ErrorView::Closed,
            Error::ReplyOnError => ErrorView::ReplyOnError,
            Error::Serde(e) => ErrorView::Serde(*e),
        }
    }
}

impl ErrorView {
    /// Whether the error alone says what it displays. A JSON failure to read or
    /// write displays what the machine says about it.
    pub open spec fn has_fixed_text(self) -> bool {
        self matches ErrorView::Serde(e) ==> !json_error_is_io(e)
    }

    /// The message that an error with a fixed text displays.
    pub open spec fn text(self) -> Seq<char> {
        match self {
            ErrorView::Server(e) => e.text(),
            ErrorView::Api(e) => e.text(),
            ErrorView::Transport(t) => "transport: "@ + t,
            ErrorView::Closed => "agent closed"@,
            ErrorView::ReplyOnError => "cannot reply on error event"@,
            ErrorView::Serde(e) => "serialization: "@ + json_error_text(e),
        }
    }

    /// What is kept of the error for later: the error itself, except that a
    /// JSON failure, which cannot be copied, is kept as its message where it
    /// has a fixed one.
    pub open spec fn kept(self) -> Self {
        match self {
            ErrorView::Serde(e) => ErrorView::Transport(
                if json_error_is_io(e) {
                    "serialization: I/O error"@
                } else {
                    self.text()
                },
            ),
            _ => self,
        }
    }
}

/// The outcome of an operation, with the text of its error as characters.
pub open spec fn outcome_view(r: std::result::Result<(), Error>) -> std::result::Result<
    (),
    ErrorView,
> {
    match r {
        Ok(_) => Ok(()),
        Err(e) => Err(e@),
    }
}

impl Error {
    /// The message that the error displays. Of a JSON failure to read or write,
    /// only how it begins is known.
    pub fn to_string(&self) -> (r: String)
        ensures
            self@.has_fixed_text() ==> r@ == self@.text(),
            self is Serde ==> "serialization: "@.is_prefix_of(r@),
    {
        match self {
            Error::Server(e) => e.to_string(),
            Error::Api(e) => e.to_string(),
            Error::Transport(t) => "transport: ".to_owned().concat(t.as_str()),
            Error::Closed => "agent closed".to_owned(),
            Error::ReplyOnError => "cannot reply on error event".to_owned(),
            Error::Serde(e) => "serialization: ".to_owned().concat(error_text(e).as_str()),
        }
    }

    /// A copy of the error for later. A JSON failure, which cannot be copied,
    /// is kept as its message, or as a fixed one where reading or writing
    /// failed.
    pub fn keep(&self) -> (r: Error)
        ensures
            r@ == self@.kept(),
    {
        match self {
            Error::Server(e) => Error::Server(e.clone()),
            Error::Api(e) => Error::Api(e.clone()),
            Error::Transport(t) => Error::Transport(t.clone()),
            Error::Closed => Error::Closed,
            Error::ReplyOnError => Error::ReplyOnError,
            Error::Serde(e) => {
                if error_is_io(e) {
                    Error::Transport("serialization: I/O error".to_owned())
                } else {
                    Error::Transport(self.to_string())
                }
            },
        }
    }
}

impl From<ServerError> for Error {
    fn from(e: ServerError) -> (r: Self) {
        Error::Server(e)
    }
}

impl vstd::std_specs::convert::FromSpecImpl<ServerError> for Error {
    open spec fn obeys_from_spec() -> bool {
        true
    }

    open spec fn from_spec(e: ServerError) -> Self {
        Error::Server(e)
    }
}

impl From<ApiError> for Error {
    fn from(e: ApiError) -> (r: Self) {
        Error::Api(e)
    }
}

impl vstd::std_specs::convert::FromSpecImpl<ApiError> for Error {
    open spec fn obeys_from_spec() -> bool {
        true
    }

    open spec fn from_spec(e: ApiError) -> Self {
        Error::Api(e)
    }
}

impl From<serde_json::Error> for Error {
    fn from(e: serde_json::Error) -> (r: Self) {
        Error::Serde(e)
    }
}

impl vstd::std_specs::convert::FromSpecImpl<serde_json::Error> for Error {
    open spec fn obeys_from_spec() -> bool {
        true
    }

    open spec fn from_spec(e: serde_json::Error) -> Self {
        Error::Serde(e)
    }
}

/// Standardized error returned by the Agent Socket server.
///
/// Carries the server-assigned `code`, the human-readable `message`, and the
/// transport-level `status`: the HTTP status on dial, 0 for error frames
/// received over an open socket.
#[derive(Debug)]
pub struct ServerError {
    pub code: String,
    pub message: String,
    pub status: u16,
}

/// A [`ServerError`] with its texts as characters.
pub struct ServerErrorView {
    pub code: Seq<char>,
    pub message: Seq<char>,
    pub status: u16,
}

impl View for ServerError {
    type V = ServerErrorView;

    open spec fn view(&self) -> ServerErrorView {
        ServerErrorView { code: self.code@, message: self.message@, status: self.status }
    }
}

impl ServerErrorView {
    /// Auth failures and a missing socket are terminal.
    pub open spec fn is_fatal(self) -> bool {
        self.status == 401 || self.status == 403 || self.status == 404
    }

    /// `[code] message`, followed by the status where there is one. An empty
    /// code reads `unknown`.
    pub open spec fn text(self) -> Seq<char> {
        let code = if self.code.len() == 0 {
            "unknown"@
        } else {
            self.code
        };
        let head = "["@ + code + "] "@ + self.message;
        if self.status == 0 {
            head
        } else {
            head + " (status "@ + decimal_text(self.status as nat) + ")"@
        }
    }
}

impl Clone for ServerError {
    fn clone(&self) -> (r: Self)
        ensures
            r == *self,
    {
        ServerError {
            code: self.code.clone(),
            message: self.message.clone(),
            status: self.status,
        }
    }
}

impl ServerError {
    pub fn new(code: String, message: String, status: u16) -> (r: Self)
        ensures
            r == (ServerError { code, message, status }),
    {
        ServerError { code, message, status }
    }

    /// Whether this error should stop the reconnect loop. Auth failures
    /// (401/403) and a missing socket (404) are terminal.
    pub fn is_fatal(&self) -> (r: bool)
        ensures
            r == self@.is_fatal(),
    {
        matches!(self.status, 401 | 403 | 404)
    }

    /// The message that the error displays.
    pub fn to_string(&self) -> (r: String)
        ensures
            r@ == self@.text(),
    {
        let mut r = "[".to_owned();
        if self.code.as_str().is_empty() {
            r.append("unknown");
        } else {
            r.append(self.code.as_str());
        }
        r.append("] ");
        r.append(self.message.as_str());
        if self.status != 0 {
            r.append(" (status ");
            r.append(decimal(self.status).as_str());
            r.append(")");
        }
        r
    }
}

/// Error returned by the REST API. Status 0 marks a request that got no
/// usable response.
#[derive(Debug)]
pub struct ApiError {
    pub status: u16,
    pub message: String,
}

/// An [`ApiError`] with its message as characters.
pub struct ApiErrorView {
    pub status: u16,
    pub message: Seq<char>,
}

impl View for ApiError {
    type V = ApiErrorView;

    open spec fn view(&self) -> ApiErrorView {
        ApiErrorView { status: self.status, message: self.message@ }
    }
}

impl ApiErrorView {
    pub open spec fn text(self) -> Seq<char> {
        "api error (status "@ + decimal_text(self.status as nat) + "): "@ + self.message
    }
}

impl Clone for ApiError {
    fn clone(&self) -> (r: Self)
        ensures
            r == *self,
    {
        ApiError { status: self.status, message: self.message.clone() }
    }
}

impl ApiError {
    pub fn new(status: u16, message: String) -> (r: Self)
        ensures
            r == (ApiError { status, message }),
    {
        ApiError { status, message }
    }

    pub fn is_not_found(&self) -> (r: bool)
        ensures
            r == (self.status == 404),
    {
        self.status == 404
    }

    pub fn is_unauthorized(&self) -> (r: bool)
        ensures
            r == (self.status == 401),
    {
        self.status == 401
    }

    pub fn is_forbidden(&self) -> (r: bool)
        ensures
            r == (self.status == 403),
    {
        self.status == 403
    }

    /// The message that the error displays.
    pub fn to_string(&self) -> (r: String)
        ensures
            r@ == self@.text(),
    {
        let mut r = "api error (status ".to_owned();
        r.append(decimal(self.status).as_str());
        r.append("): ");
        r.append(self.message.as_str());
        r
    }
}

/// The result type used throughout the crate.
pub type Result<T> = std::result::Result<T, Error>;

} // verus!
