//! Routing: which protocol a fresh connection speaks, which file an HTTP
//! request asks for, and which handler an inbound message goes to.
//!
//! A [`Router`] is generic in the types of its handlers, of its hooks and
//! of the values of its shared state. It selects a handler and never calls
//! one: running handlers and hooks is left to the caller.

use crate::connection::{send_failure_text, Connection, ConnectionId, ConnectionManager};
use crate::error::{Error, Result};
use crate::extractor::Extensions;
use crate::message::{lossy_text, wire_text, Message, MessageType, MessageView};
use crate::state::{AppState, TypeKey};
use crate::static_files::{starts_with_text, StaticFileHandler};
use crate::text::{
    append_decimal, contains_ignoring_case, copy_range, decimal, find_ignoring_case, is_space,
    is_whitespace, lemma_decimal_value, same_bytes,
};
use vstd::prelude::*;
use vstd::slice::slice_subrange;
use vstd::string::StrSliceExecFns;
use vstd::string::StringExecFns;
use vstd::string::StringSliceAdditionalSpecFns;
use vstd::utf8::encode_utf8;

verus! {

/// A route: a path and the handler registered for it.
pub struct Route<H> {
    /// The path of the route, such as `/chat`.
    pub path: String,
    /// The handler of the route.
    pub handler: H,
}

/// The index of the first byte at or after `i` that is no whitespace.
pub open spec fn skip_spaces(bytes: Seq<u8>, i: int) -> int
    decreases bytes.len() - i,
{
    if 0 <= i < bytes.len() && is_space(bytes[i]) {
        skip_spaces(bytes, i + 1)
    } else {
        i
    }
}

/// The index of the first byte at or after `i` that is whitespace.
pub open spec fn skip_word(bytes: Seq<u8>, i: int) -> int
    decreases bytes.len() - i,
{
    if 0 <= i < bytes.len() && !is_space(bytes[i]) {
        skip_word(bytes, i + 1)
    } else {
        i
    }
}

/// The index of the first line feed at or after `i`.
pub open spec fn line_end(bytes: Seq<u8>, i: int) -> int
    decreases bytes.len() - i,
{
    if 0 <= i < bytes.len() && bytes[i] != 0x0a {
        line_end(bytes, i + 1)
    } else {
        i
    }
}

/// The key that a message is routed by: for a text message that begins with
/// a slash, its first token, which ends before the first whitespace.
pub open spec fn route_key(m: MessageView) -> Option<Seq<u8>> {
    if m.text() is Some && m.payload.len() > 0 && m.payload[0] == 0x2f {
        Some(m.payload.take(skip_word(m.payload, 0)))
    } else {
        None
    }
}

/// The path that an HTTP request asks for: the second token of its first
/// line, if the first token is `GET` or `HEAD`.
pub open spec fn request_path(header: Seq<u8>) -> Option<Seq<u8>> {
    let line = header.take(line_end(header, 0));
    let method_start = skip_spaces(line, 0);
    let method_end = skip_word(line, method_start);
    let path_start = skip_spaces(line, method_end);
    let path_end = skip_word(line, path_start);
    let method = line.subrange(method_start, method_end);
    if path_start < path_end && (method == encode_utf8("GET"@) || method == encode_utf8("HEAD"@)) {
        Some(line.subrange(path_start, path_end))
    } else {
        None
    }
}

/// The number of bytes of a request that are looked at to tell its
/// protocol.
pub const PEEK_LIMIT: usize = 1024;

/// Whether a request asks to upgrade to the WebSocket protocol: its first
/// 1024 bytes hold `Upgrade: websocket`, letter case aside.
pub open spec fn asks_for_upgrade(header: Seq<u8>) -> bool {
    contains_ignoring_case(
        if header.len() <= 1024 {
            header
        } else {
            header.take(1024)
        },
        encode_utf8("Upgrade: websocket"@),
    )
}

/// The protocol of a fresh connection.
#[derive(Debug, Clone, Copy, PartialEq, Eq, Structural)]
pub enum Protocol {
    /// A WebSocket upgrade request.
    WebSocket,
    /// An HTTP request for a static file.
    Http,
}

/// Advances over whitespace; see [`skip_spaces`].
fn after_spaces(bytes: &[u8], from: usize) -> (i: usize)
    requires
        from <= bytes@.len(),
    ensures
        i == skip_spaces(bytes@, from as int),
        from <= i <= bytes@.len(),
{
    let mut i = from;
    while i < bytes.len() && is_whitespace(bytes[i])
        invariant
            from <= i <= bytes@.len(),
            skip_spaces(bytes@, from as int) == skip_spaces(bytes@, i as int),
        decreases bytes@.len() - i,
    {
        i += 1;
    }
    i
}

/// Advances over a token; see [`skip_word`].
fn after_word(bytes: &[u8], from: usize) -> (i: usize)
    requires
        from <= bytes@.len(),
    ensures
        i == skip_word(bytes@, from as int),
        from <= i <= bytes@.len(),
{
    let mut i = from;
    while i < bytes.len() && !is_whitespace(bytes[i])
        invariant
            from <= i <= bytes@.len(),
            skip_word(bytes@, from as int) == skip_word(bytes@, i as int),
        decreases bytes@.len() - i,
    {
        i += 1;
    }
    i
}

/// Finds the end of the first line; see [`line_end`].
fn first_line_end(bytes: &[u8]) -> (i: usize)
    ensures
        i == line_end(bytes@, 0),
        i <= bytes@.len(),
{
    let mut i: usize = 0;
    while i < bytes.len() && bytes[i] != 0x0a
        invariant
            i <= bytes@.len(),
            line_end(bytes@, 0) == line_end(bytes@, i as int),
        decreases bytes@.len() - i,
    {
        i += 1;
    }
    i
}

/// Parses the request line of an HTTP request and returns the path it asks
/// for. Only `GET` and `HEAD` requests have one.
pub fn parse_request_path(header: &[u8]) -> (path: Option<Vec<u8>>)
    ensures
        match path {
            Some(p) => request_path(header@) == Some(p@),
            None => request_path(header@) is None,
        },
{
    let end = first_line_end(header);
    let line = slice_subrange(header, 0, end);
    let method_start = after_spaces(line, 0);
    let method_end = after_word(line, method_start);
    let path_start = after_spaces(line, method_end);
    let path_end = after_word(line, path_start);
    if path_start >= path_end {
        return None;
    }
    let method = slice_subrange(line, method_start, method_end);
    if same_bytes(method, "GET".as_bytes()) || same_bytes(method, "HEAD".as_bytes()) {
        Some(copy_range(line, path_start, path_end))
    } else {
        None
    }
}

/// Tells whether a request asks to upgrade to the WebSocket protocol.
pub fn wants_upgrade(header: &[u8]) -> (r: bool)
    ensures
        r == asks_for_upgrade(header@),
{
    let seen = if header.len() <= PEEK_LIMIT {
        header
    } else {
        slice_subrange(header, 0, PEEK_LIMIT)
    };
    find_ignoring_case(seen, "Upgrade: websocket".as_bytes())
}

/// The routes of a router as a table from the bytes of a path to its
/// handler. A later route for the same path replaces the earlier one.
pub open spec fn table_of<H>(routes: Seq<Route<H>>) -> Map<Seq<u8>, H>
    decreases routes.len(),
{
    if routes.len() == 0 {
        Map::empty()
    } else {
        table_of(routes.drop_last()).insert(encode_utf8(routes.last().path@), routes.last().handler)
    }
}

/// The routing table and the configuration of a listener. `H` is the type
/// of handlers, `K` the type of the connect and disconnect hooks, and `V`
/// the type of the shared state values.
pub struct Router<H, K, V> {
    routes: Vec<Route<H>>,
    state: AppState<V>,
    connection_manager: ConnectionManager,
    on_connect: Option<K>,
    on_disconnect: Option<K>,
    default_handler: Option<H>,
    static_handler: Option<StaticFileHandler>,
    ids: ConnectionIds,
}

/// What a dispatch starts with: a handle of the originating connection, the
/// selected handler, if there is one, and fresh extensions.
pub struct Dispatch<'a, H, V> {
    /// The connection that the message came from.
    pub conn: Connection,
    /// The handler that the message goes to.
    pub handler: Option<&'a H>,
    /// The extensions of this dispatch, empty at its start.
    pub extensions: Extensions<V>,
}

/// How a dispatch ended.
#[derive(Debug)]
pub enum DispatchOutcome {
    /// The reply was enqueued on the originating connection.
    Replied,
    /// There was a reply, and the queue of the connection refused it.
    ReplyRefused(Error),
    /// There was nothing to reply.
    Silent,
}

/// The text of the reply that reports an error to the client.
pub open spec fn error_reply_text(e: Error) -> Seq<char> {
    "Error: "@ + e.display_text()
}

/// The reply to the client for each result of a handler: its response if
/// it gave one, and the error text if it failed.
pub open spec fn reply_of(outcome: Result<Option<Message>>) -> Option<MessageView> {
    match outcome {
        Ok(Some(response)) => Some(response@),
        Ok(None) => None,
        Err(e) => Some(
            MessageView { kind: MessageType::Text, payload: encode_utf8(error_reply_text(e)) },
        ),
    }
}

impl<H, K, V> Router<H, K, V> {
    /// The routing table: from the bytes of a route path to its handler.
    pub closed spec fn table(&self) -> Map<Seq<u8>, H> {
        table_of(self.routes@)
    }

    /// The default handler.
    pub closed spec fn fallback(&self) -> Option<H> {
        self.default_handler
    }

    /// The static file handler.
    pub closed spec fn files(&self) -> Option<StaticFileHandler> {
        self.static_handler
    }

    /// The connection registry.
    pub closed spec fn registry(&self) -> ConnectionManager {
        self.connection_manager
    }

    /// The shared state.
    pub closed spec fn shared(&self) -> AppState<V> {
        self.state
    }

    /// The hook that runs when a connection is established.
    pub closed spec fn connect_hook(&self) -> Option<K> {
        self.on_connect
    }

    /// The hook that runs when a connection is gone.
    pub closed spec fn disconnect_hook(&self) -> Option<K> {
        self.on_disconnect
    }

    /// The number of the next connection.
    pub closed spec fn next_connection(&self) -> u64 {
        self.ids.upcoming()
    }

    /// Whether two routers differ at most in their routing tables.
    pub open spec fn same_setup(&self, other: &Router<H, K, V>) -> bool {
        &&& self.next_connection() == other.next_connection()
        &&& self.fallback() == other.fallback()
        &&& self.files() == other.files()
        &&& self.registry() == other.registry()
        &&& self.shared() == other.shared()
        &&& self.connect_hook() == other.connect_hook()
        &&& self.disconnect_hook() == other.disconnect_hook()
    }

    /// The file that an HTTP request asks for: where static files are
    /// served and the request has a path, the file that the path names.
    pub open spec fn resolves(&self, header: Seq<u8>) -> Option<Seq<char>> {
        match (self.files(), request_path(header)) {
            (Some(files), Some(path)) => files.resolved(wire_text(path)),
            _ => None,
        }
    }

    /// The handler that a message is dispatched to: the one registered for
    /// its route key, if there is such a route; otherwise the default
    /// handler; otherwise none.
    pub open spec fn selected(&self, m: MessageView) -> Option<H> {
        match route_key(m) {
            Some(key) => if self.table().dom().contains(key) {
                Some(self.table()[key])
            } else {
                self.fallback()
            },
            None => self.fallback(),
        }
    }

    /// Creates a router with no routes, no default handler, no hooks, no
    /// static files, no shared state and an empty registry.
    pub fn new() -> (router: Router<H, K, V>)
        ensures
            router.table() == (Map::<Seq<u8>, H>::empty()),
            router.fallback() is None,
            router.files() is None,
            router.connect_hook() is None,
            router.disconnect_hook() is None,
            router.shared()@ == (Map::<TypeKey, V>::empty()),
            router.registry().well_formed(),
            router.registry()@.len() == 0,
            router.next_connection() == 0,
    {
        Router {
            routes: Vec::new(),
            state: AppState::new(),
            connection_manager: ConnectionManager::new(),
            on_connect: None,
            on_disconnect: None,
            default_handler: None,
            static_handler: None,
            ids: ConnectionIds::new(),
        }
    }

    /// Registers a handler for a route path. A handler that was registered
    /// for the same path is replaced.
    pub fn route(self, path: &str, handler: H) -> (router: Router<H, K, V>)
        ensures
            router.table() == self.table().insert(encode_utf8(path@), handler),
            router.same_setup(&self),
    {
        let mut router = self;
        router.routes.push(Route { path: String::from_str(path), handler });
        assert(router.routes@.drop_last() =~= self.routes@);
        router
    }

    /// Sets the handler for messages that match no route.
    pub fn default_handler(self, handler: H) -> (router: Router<H, K, V>)
        ensures
            router.fallback() == Some(handler),
            router.table() == self.table(),
            router.files() == self.files(),
            router.registry() == self.registry(),
            router.shared() == self.shared(),
            router.connect_hook() == self.connect_hook(),
            router.disconnect_hook() == self.disconnect_hook(),
            router.next_connection() == self.next_connection(),
    {
        let mut router = self;
        router.default_handler = Some(handler);
        router
    }

    /// Serves the files below `path` to HTTP requests, with `index.html` as
    /// the index file.
    pub fn serve_static(self, path: &str) -> (router: Router<H, K, V>)
        ensures
            router.files() matches Some(files) && files.root_path() == path@ && files.index_name()
                == "index.html"@,
            router.table() == self.table(),
            router.fallback() == self.fallback(),
            router.registry() == self.registry(),
            router.shared() == self.shared(),
            router.connect_hook() == self.connect_hook(),
            router.disconnect_hook() == self.disconnect_hook(),
            router.next_connection() == self.next_connection(),
    {
        let mut router = self;
        router.static_handler = Some(StaticFileHandler::new(path));
        router
    }

    /// Stores a value of the shared state under the key of its type and
    /// replaces the value that was stored under that key before.
    pub fn with_state(self, key: TypeKey, data: V) -> (router: Router<H, K, V>)
        ensures
            router.shared()@ == self.shared()@.insert(key, data),
            router.table() == self.table(),
            router.fallback() == self.fallback(),
            router.files() == self.files(),
            router.registry() == self.registry(),
            router.connect_hook() == self.connect_hook(),
            router.disconnect_hook() == self.disconnect_hook(),
            router.next_connection() == self.next_connection(),
    {
        let mut router = self;
        router.state.insert(key, data);
        router
    }

    /// Sets the hook that runs when a connection is established, after the
    /// connection is registered.
    pub fn on_connect(self, hook: K) -> (router: Router<H, K, V>)
        ensures
            router.connect_hook() == Some(hook),
            router.table() == self.table(),
            router.fallback() == self.fallback(),
            router.files() == self.files(),
            router.registry() == self.registry(),
            router.shared() == self.shared(),
            router.disconnect_hook() == self.disconnect_hook(),
            router.next_connection() == self.next_connection(),
    {
        let mut router = self;
        router.on_connect = Some(hook);
        router
    }

    /// Sets the hook that runs when a connection is gone, after the
    /// connection is removed from the registry.
    pub fn on_disconnect(self, hook: K) -> (router: Router<H, K, V>)
        ensures
            router.disconnect_hook() == Some(hook),
            router.table() == self.table(),
            router.fallback() == self.fallback(),
            router.files() == self.files(),
            router.registry() == self.registry(),
            router.shared() == self.shared(),
            router.connect_hook() == self.connect_hook(),
            router.next_connection() == self.next_connection(),
    {
        let mut router = self;
        router.on_disconnect = Some(hook);
        router
    }

    /// The shared state of this router.
    pub fn state(&self) -> (state: &AppState<V>)
        ensures
            *state == self.shared(),
    {
        &self.state
    }

    /// The hook that runs when a connection is established.
    pub fn connect_callback(&self) -> (hook: Option<&K>)
        ensures
            match hook {
                Some(h) => self.connect_hook() == Some(*h),
                None => self.connect_hook() is None,
            },
    {
        self.on_connect.as_ref()
    }

    /// The hook that runs when a connection is gone.
    pub fn disconnect_callback(&self) -> (hook: Option<&K>)
        ensures
            match hook {
                Some(h) => self.disconnect_hook() == Some(*h),
                None => self.disconnect_hook() is None,
            },
    {
        self.on_disconnect.as_ref()
    }

    /// The connection registry of this router.
    pub fn connection_manager(&self) -> (manager: &ConnectionManager)
        ensures
            *manager == self.registry(),
    {
        &self.connection_manager
    }

    /// The connection registry of this router, for the session runtime to
    /// register and remove connections.
    pub fn connection_manager_mut(&mut self) -> (manager: &mut ConnectionManager)
        ensures
            *manager == old(self).registry(),
            final(self).registry() == *final(manager),
            final(self).table() == old(self).table(),
            final(self).fallback() == old(self).fallback(),
            final(self).files() == old(self).files(),
            final(self).shared() == old(self).shared(),
            final(self).connect_hook() == old(self).connect_hook(),
            final(self).disconnect_hook() == old(self).disconnect_hook(),
            final(self).next_connection() == old(self).next_connection(),
    {
        &mut self.connection_manager
    }

    /// The static file handler, if static files are served.
    pub fn static_files(&self) -> (files: Option<&StaticFileHandler>)
        ensures
            match files {
                Some(f) => self.files() == Some(*f),
                None => self.files() is None,
            },
    {
        self.static_handler.as_ref()
    }

    /// Generates the id of the next connection, `conn_` and its number, and
    /// advances the counter; nothing else of the router changes.
    pub fn generate_connection_id(&mut self) -> (id: ConnectionId)
        ensures
            id@ == connection_id_text(old(self).next_connection()),
            final(self).next_connection() == (if old(self).next_connection() == u64::MAX {
                0
            } else {
                old(self).next_connection() + 1
            }),
            final(self).table() == old(self).table(),
            final(self).fallback() == old(self).fallback(),
            final(self).files() == old(self).files(),
            final(self).registry() == old(self).registry(),
            final(self).shared() == old(self).shared(),
            final(self).connect_hook() == old(self).connect_hook(),
            final(self).disconnect_hook() == old(self).disconnect_hook(),
    {
        self.ids.generate()
    }

    /// Tells the protocol of a fresh connection from the first bytes of its
    /// request: WebSocket where the request asks for the upgrade, else HTTP
    /// where static files are served. Any other request is refused with a
    /// custom error.
    pub fn protocol_of(&self, header: &[u8]) -> (protocol: Result<Protocol>)
        ensures
            asks_for_upgrade(header@) ==> protocol matches Ok(Protocol::WebSocket),
            !asks_for_upgrade(header@) && self.files() is Some ==> protocol matches Ok(
                Protocol::Http,
            ),
            !asks_for_upgrade(header@) && self.files() is None ==> (protocol matches Err(
                Error::Custom(text),
            ) && text@ == "No handler for HTTP requests"@),
    {
        if wants_upgrade(header) {
            Ok(Protocol::WebSocket)
        } else if self.static_handler.is_some() {
            Ok(Protocol::Http)
        } else {
            Err(Error::custom("No handler for HTTP requests"))
        }
    }

    /// Names the file that an HTTP request asks for. The request is refused
    /// with a custom error where no static files are served, where it is no
    /// `GET` or `HEAD` request with a path, and where its path does not
    /// decode to valid UTF-8. A path that is not valid UTF-8 as it stands is
    /// read in its lossy decoding.
    pub fn requested_file(&self, header: &[u8]) -> (candidate: Result<String>)
        ensures
            candidate is Ok <==> self.resolves(header@) is Some,
            candidate matches Ok(file) ==> self.resolves(header@) == Some(file@),
            candidate matches Err(e) ==> e is Custom,
            candidate matches Err(e) ==> (self.files() is None ==> e.detail()
                == "No handler for HTTP requests"@),
            candidate matches Err(e) ==> (self.files() is Some && request_path(header@) is None
                ==> e.detail() == "Unsupported request"@),
            candidate matches Err(e) ==> (self.files() is Some && request_path(header@) is Some
                ==> starts_with_text(e.detail(), "Invalid path encoding: "@)),
    {
        let files = match &self.static_handler {
            Some(files) => files,
            None => {
                return Err(Error::custom("No handler for HTTP requests"));
            },
        };
        let path = match parse_request_path(header) {
            Some(path) => path,
            None => {
                return Err(Error::custom("Unsupported request"));
            },
        };
        let text = lossy_text(path.as_slice());
        files.resolve(text.as_str())
    }

    /// Selects the handler for a message: the one registered for its route
    /// key, if there is such a route; otherwise the default handler;
    /// otherwise none.
    pub fn select(&self, message: &Message) -> (handler: Option<&H>)
        ensures
            match handler {
                Some(h) => self.selected(message@) == Some(*h),
                None => self.selected(message@) is None,
            },
    {
        let routed = match message_key(message) {
            Some(key) => self.lookup(key),
            None => None,
        };
        match routed {
            Some(h) => Some(h),
            None => self.default_handler.as_ref(),
        }
    }

    /// Finds the handler that is registered for a key.
    fn lookup(&self, key: &[u8]) -> (handler: Option<&H>)
        ensures
            match handler {
                Some(h) => self.table().dom().contains(key@) && self.table()[key@] == *h,
                None => !self.table().dom().contains(key@),
            },
    {
        let mut i: usize = self.routes.len();
        assert(self.routes@.take(i as int) =~= self.routes@);
        while i > 0
            invariant
                i <= self.routes@.len(),
                table_of(self.routes@).dom().contains(key@) <==> table_of(
                    self.routes@.take(i as int),
                ).dom().contains(key@),
                table_of(self.routes@).dom().contains(key@) ==> table_of(self.routes@)[key@]
                    == table_of(self.routes@.take(i as int))[key@],
            decreases i,
        {
            assert(self.routes@.take(i as int).drop_last() =~= self.routes@.take(i - 1));
            if same_bytes(self.routes[i - 1].path.as_str().as_bytes(), key) {
                return Some(&self.routes[i - 1].handler);
            }
            i -= 1;
        }
        None
    }

    /// Starts the dispatch of a message that came from the connection
    /// `conn_id`. It fails with `ConnectionNotFound` exactly when that
    /// connection is not registered any more; otherwise it hands back a
    /// handle of the connection, the selected handler and fresh extensions.
    pub fn begin_dispatch(&self, conn_id: &ConnectionId, message: &Message) -> (start: Result<
        Dispatch<'_, H, V>,
    >)
        requires
            self.registry().well_formed(),
        ensures
            start is Ok <==> self.registry().contains(conn_id@),
            start matches Ok(d) ==> d.conn@ == self.registry()@[conn_id@] && d.conn@.id
                == conn_id@ && d.extensions@ == (Map::<Seq<char>, V>::empty()) && (match d.handler {
                Some(h) => self.selected(message@) == Some(*h),
                None => self.selected(message@) is None,
            }),
            start matches Err(e) ==> e is ConnectionNotFound && e.detail() == conn_id@,
    {
        match self.connection_manager.get(conn_id) {
            Some(conn) => Ok(
                Dispatch { conn, handler: self.select(message), extensions: Extensions::new() },
            ),
            None => Err(Error::ConnectionNotFound(conn_id.clone())),
        }
    }
}

impl<H, K, V> Default for Router<H, K, V> {
    fn default() -> (router: Router<H, K, V>)
        ensures
            router.table() == (Map::<Seq<u8>, H>::empty()),
            router.fallback() is None,
            router.files() is None,
            router.connect_hook() is None,
            router.disconnect_hook() is None,
            router.shared()@ == (Map::<TypeKey, V>::empty()),
            router.registry().well_formed(),
            router.registry()@.len() == 0,
            router.next_connection() == 0,
    {
        Router::new()
    }
}

/// The key that a message is routed by; see [`route_key`].
pub fn message_key(message: &Message) -> (key: Option<&[u8]>)
    ensures
        match key {
            Some(k) => route_key(message@) == Some(k@),
            None => route_key(message@) is None,
        },
{
    if message.as_text().is_none() {
        return None;
    }
    let payload = message.as_bytes();
    if payload.len() == 0 || payload[0] != 0x2f {
        return None;
    }
    let end = after_word(payload, 0);
    let key = slice_subrange(payload, 0, end);
    Some(key)
}

/// The reply to the client for a result of a handler: its response if it
/// gave one, nothing if it gave none, and for an error a text message that
/// holds `Error: ` and the display form of the error.
pub fn reply_for(outcome: Result<Option<Message>>) -> (reply: Option<Message>)
    ensures
        match reply {
            Some(m) => reply_of(outcome) == Some(m@),
            None => reply_of(outcome) is None,
        },
{
    match outcome {
        Ok(Some(response)) => Some(response),
        Ok(None) => None,
        Err(e) => {
            let text = String::from_str("Error: ").concat(e.to_string().as_str());
            Some(Message::text(text.as_str()))
        },
    }
}

/// Ends a dispatch: enqueues the reply for the result of the handler on the
/// originating connection. A failed handler or a refused reply leaves the
/// connection registered.
pub fn complete_dispatch(conn: &Connection, outcome: Result<Option<Message>>) -> (done:
    DispatchOutcome)
    ensures
        reply_of(outcome) is None <==> done is Silent,
        done matches DispatchOutcome::ReplyRefused(e) ==> e is Custom && e.detail()
            == send_failure_text(),
{
    match reply_for(outcome) {
        Some(reply) => match conn.send(reply) {
            Ok(()) => DispatchOutcome::Replied,
            Err(e) => DispatchOutcome::ReplyRefused(e),
        },
        None => DispatchOutcome::Silent,
    }
}

/// The text of the id of the connection with a given number.
pub open spec fn connection_id_text(number: u64) -> Seq<char> {
    "conn_"@ + decimal(number as nat)
}

/// Connections with different numbers have different ids.
pub proof fn lemma_connection_ids_differ(a: u64, b: u64)
    requires
        a != b,
    ensures
        connection_id_text(a) != connection_id_text(b),
{
    lemma_decimal_value(a as nat);
    lemma_decimal_value(b as nat);
    let prefix = "conn_"@;
    if connection_id_text(a) == connection_id_text(b) {
        assert(connection_id_text(a).skip(prefix.len() as int) =~= decimal(a as nat));
        assert(connection_id_text(b).skip(prefix.len() as int) =~= decimal(b as nat));
    }
}

/// The source of connection ids: a counter that is rendered as
/// `conn_<number>`.
#[derive(Debug)]
pub struct ConnectionIds {
    next: u64,
}

impl ConnectionIds {
    /// The number of the next connection.
    pub closed spec fn upcoming(&self) -> u64 {
        self.next
    }

    /// Creates a source whose first id is `conn_0`.
    pub fn new() -> (ids: ConnectionIds)
        ensures
            ids.upcoming() == 0,
    {
        ConnectionIds { next: 0 }
    }

    /// Generates the id of the next connection and advances the counter,
    /// which starts again at zero after the largest number.
    pub fn generate(&mut self) -> (id: ConnectionId)
        ensures
            id@ == connection_id_text(old(self).upcoming()),
            final(self).upcoming() == (if old(self).upcoming() == u64::MAX {
                0
            } else {
                old(self).upcoming() + 1
            }),
    {
        let mut id = String::from_str("conn_");
        append_decimal(&mut id, self.next);
        self.next = if self.next == u64::MAX {
            0
        } else {
            self.next + 1
        };
        id
    }
}

} // verus!
