//! The error taxonomy of the framework.
//!
//! Every failure category carries a human-readable detail. Errors of the
//! lower layers (transport, framing, serialization) are kept by their
//! message text.

use serde_json::Error as JsonFailure;
use std::io::Error as IoFailure;
use tokio_tungstenite::tungstenite::Error as WebSocketFailure;
use vstd::prelude::*;
use vstd::string::StringExecFns;

verus! {

/// The failure categories of the framework.
#[derive(Debug)]
pub enum Error {
    /// A WebSocket protocol violation reported by the framing layer.
    WebSocket(String),
    /// An I/O failure on the underlying stream.
    Io(String),
    /// A JSON parse or emit failure.
    Json(String),
    /// A dispatch targeted an id that is no longer registered.
    ConnectionNotFound(String),
    /// No handler exists for a resolved route and no default is set.
    RouteNotFound(String),
    /// The payload does not have the expected shape.
    InvalidMessage,
    /// An application-level failure raised by a handler.
    Handler(String),
    /// A required input was absent or ill-typed.
    Extractor(String),
    /// An application-specific error.
    Custom(String),
}

/// The error type of the JSON library, carried through as an opaque value.
#[verifier::external_type_specification]
#[verifier::external_body]
pub struct ExJsonFailure(JsonFailure);

/// The message of an error of the JSON library: its display form.
pub uninterp spec fn json_error_message(e: JsonFailure) -> Seq<char>;

/// Renders a `serde_json::Error` with its `Display` impl, through
/// `to_string`.
#[verifier::external_body]
fn json_error_text(e: &JsonFailure) -> (text: String)
    ensures
        text@ == json_error_message(*e),
{
    e.to_string()
}

/// The error that the conversion returns holds a freshly built `String`,
/// which no `spec` function can construct. So the conversion declares that
/// it follows no `from_spec`, and `from` states its result itself.
impl vstd::std_specs::convert::FromSpecImpl<JsonFailure> for Error {
    open spec fn obeys_from_spec() -> bool {
        false
    }

    open spec fn from_spec(e: JsonFailure) -> Error {
        Error::InvalidMessage
    }
}

impl From<JsonFailure> for Error {
    /// A failure of the JSON library becomes a `Json` error that keeps the
    /// library's message.
    fn from(e: JsonFailure) -> (err: Error)
        ensures
            err is Json,
            err.detail() == json_error_message(e),
    {
        Error::Json(json_error_text(&e))
    }
}

/// The error type of the transport, carried through as an opaque value.
#[verifier::external_type_specification]
#[verifier::external_body]
pub struct ExIoFailure(IoFailure);

/// The message of an I/O error: its display form.
pub uninterp spec fn io_error_message(e: IoFailure) -> Seq<char>;

/// Renders a `std::io::Error` with its `Display` impl, through `to_string`.
#[verifier::external_body]
fn io_error_text(e: &IoFailure) -> (text: String)
    ensures
        text@ == io_error_message(*e),
{
    e.to_string()
}

/// As for the JSON library: what the conversion returns is stated on
/// `from` itself.
impl vstd::std_specs::convert::FromSpecImpl<IoFailure> for Error {
    open spec fn obeys_from_spec() -> bool {
        false
    }

    open spec fn from_spec(e: IoFailure) -> Error {
        Error::InvalidMessage
    }
}

impl From<IoFailure> for Error {
    /// A failure of the transport becomes an `Io` error that keeps the
    /// message of the failure.
    fn from(e: IoFailure) -> (err: Error)
        ensures
            err is Io,
            err.detail() == io_error_message(e),
    {
        Error::Io(io_error_text(&e))
    }
}

/// The error type of the framing library, carried through as an opaque
/// value.
#[verifier::external_type_specification]
#[verifier::external_body]
pub struct ExWebSocketFailure(WebSocketFailure);

/// The message of an error of the framing library: its display form.
pub uninterp spec fn websocket_error_message(e: WebSocketFailure) -> Seq<char>;

/// Renders a `tungstenite::Error` with its `Display` impl, through
/// `to_string`.
#[verifier::external_body]
fn websocket_error_text(e: &WebSocketFailure) -> (text: String)
    ensures
        text@ == websocket_error_message(*e),
{
    e.to_string()
}

/// As for the JSON library: what the conversion returns is stated on
/// `from` itself.
impl vstd::std_specs::convert::FromSpecImpl<WebSocketFailure> for Error {
    open spec fn obeys_from_spec() -> bool {
        false
    }

    open spec fn from_spec(e: WebSocketFailure) -> Error {
        Error::InvalidMessage
    }
}

impl From<WebSocketFailure> for Error {
    /// A failure of the framing library becomes a `WebSocket` error that
    /// keeps the library's message.
    fn from(e: WebSocketFailure) -> (err: Error)
        ensures
            err is WebSocket,
            err.detail() == websocket_error_message(e),
    {
        Error::WebSocket(websocket_error_text(&e))
    }
}

/// The result type used throughout the framework.
pub type Result<T> = std::result::Result<T, Error>;

impl Clone for Error {
    fn clone(&self) -> (copy: Self)
        ensures
            copy.display_text() == self.display_text(),
            copy.label() == self.label(),
            copy.detail() == self.detail(),
    {
        match self {
            Error::WebSocket(s) => Error::WebSocket(s.clone()),
            Error::Io(s) => Error::Io(s.clone()),
            Error::Json(s) => Error::Json(s.clone()),
            Error::ConnectionNotFound(s) => Error::ConnectionNotFound(s.clone()),
            Error::RouteNotFound(s) => Error::RouteNotFound(s.clone()),
            Error::InvalidMessage => Error::InvalidMessage,
            Error::Handler(s) => Error::Handler(s.clone()),
            Error::Extractor(s) => Error::Extractor(s.clone()),
            Error::Custom(s) => Error::Custom(s.clone()),
        }
    }
}

impl Error {
    /// The detail carried by the error; empty for `InvalidMessage`.
    pub open spec fn detail(self) -> Seq<char> {
        match self {
            Error::WebSocket(s) => s@,
            Error::Io(s) => s@,
            Error::Json(s) => s@,
            Error::ConnectionNotFound(s) => s@,
            Error::RouteNotFound(s) => s@,
            Error::InvalidMessage => Seq::empty(),
            Error::Handler(s) => s@,
            Error::Extractor(s) => s@,
            Error::Custom(s) => s@,
        }
    }

    /// The fixed text that introduces the detail of each category.
    pub open spec fn label(self) -> Seq<char> {
        match self {
            Error::WebSocket(_) => "WebSocket error: "@,
            Error::Io(_) => "IO error: "@,
            Error::Json(_) => "JSON error: "@,
            Error::ConnectionNotFound(_) => "Connection not found: "@,
            Error::RouteNotFound(_) => "Route not found: "@,
            Error::InvalidMessage => "Invalid message format"@,
            Error::Handler(_) => "Handler error: "@,
            Error::Extractor(_) => "Extractor error: "@,
            Error::Custom(_) => "Custom error: "@,
        }
    }

    /// The display form of the error: its label followed by its detail.
    pub open spec fn display_text(self) -> Seq<char> {
        self.label() + self.detail()
    }

    /// Creates an application-specific error with the given message.
    pub fn custom(msg: &str) -> (e: Error)
        ensures
            e matches Error::Custom(s) && s@ == msg@,
    {
        Error::Custom(String::from_str(msg))
    }

    /// Creates a handler error with the given message.
    pub fn handler(msg: &str) -> (e: Error)
        ensures
            e matches Error::Handler(s) && s@ == msg@,
    {
        Error::Handler(String::from_str(msg))
    }

    /// Creates an extractor error with the given message.
    pub fn extractor(msg: &str) -> (e: Error)
        ensures
            e matches Error::Extractor(s) && s@ == msg@,
    {
        Error::Extractor(String::from_str(msg))
    }

    /// Renders the error as text: the category label, then the detail.
    pub fn to_string(&self) -> (text: String)
        ensures
            text@ == self.display_text(),
    {
        match self {
            Error::WebSocket(s) => String::from_str("WebSocket error: ").concat(s.as_str()),
            Error::Io(s) => String::from_str("IO error: ").concat(s.as_str()),
            Error::Json(s) => String::from_str("JSON error: ").concat(s.as_str()),
            Error::ConnectionNotFound(s) => String::from_str("Connection not found: ").concat(
                s.as_str(),
            ),
            Error::RouteNotFound(s) => String::from_str("Route not found: ").concat(s.as_str()),
            Error::InvalidMessage => String::from_str("Invalid message format"),
            Error::Handler(s) => String::from_str("Handler error: ").concat(s.as_str()),
            Error::Extractor(s) => String::from_str("Extractor error: ").concat(s.as_str()),
            Error::Custom(s) => String::from_str("Custom error: ").concat(s.as_str()),
        }
    }
}

} // verus!
