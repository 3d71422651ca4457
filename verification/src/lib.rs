//! A WebSocket server framework core.
//!
//! The crate holds the logic of a WebSocket server that multiplexes static
//! HTTP files and WebSocket sessions on one listener: messages and their
//! wire form, the error taxonomy, the connection registry with its
//! broadcast primitives, shared state and extractors, the middleware chain,
//! routing, static file resolution, and the session runtime as a state
//! machine. Every function carries a contract that Verus proves; sockets,
//! files and tasks are left to the program around the crate.

pub mod connection;
pub mod error;
pub mod extractor;
pub mod handler;
pub mod message;
pub mod middleware;
pub mod prelude;
pub mod router;
pub mod session;
pub mod state;
pub mod static_files;
pub mod text;

pub use connection::{
    BroadcastReport, Connection, ConnectionId, ConnectionInfo, ConnectionManager, Delivery,
};
pub use error::{Error, Result};
pub use extractor::{ConnectInfo, Data, Extension, Extensions, Json, Path, Query, State};
pub use handler::{HandlerService, IntoResponse, JsonResponse};
pub use message::{Message, MessageType, WireFrame};
pub use router::{Route, Router};
pub use session::{Session, SessionAction, SessionEvent, SessionPhase};
pub use state::{AppState, TypeKey};
pub use static_files::{http_response, StaticFileHandler};
