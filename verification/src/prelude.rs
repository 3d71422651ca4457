//! The items that most programs need, for one import.

pub use crate::connection::{Connection, ConnectionId, ConnectionManager};
pub use crate::error::{Error, Result};
pub use crate::extractor::{ConnectInfo, Data, Extension, Extensions, Json, Path, Query, State};
pub use crate::handler::{HandlerService, IntoResponse, JsonResponse};
pub use crate::message::{Message, MessageType};
pub use crate::router::{Route, Router};
pub use crate::state::AppState;
pub use crate::static_files::StaticFileHandler;
