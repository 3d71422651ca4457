use tokio::sync::mpsc::{unbounded_channel, UnboundedReceiver};
use wsforge::connection::Connection;
use wsforge::router::{
    complete_dispatch, message_key, parse_request_path, wants_upgrade, ConnectionIds, Protocol,
    Router,
};
use wsforge::{Error, Message, MessageType};

type TestRouter = Router<&'static str, &'static str, u32>;

fn routes() -> TestRouter {
    Router::new().route("/chat", "H1").route("/stats", "H2").default_handler("H0")
}

fn run(handler: &str, message: &Message) -> wsforge::Result<Option<Message>> {
    let text = message.as_text().unwrap_or("");
    match handler {
        "H1" => {
            let rest = match text.split_once(' ') {
                Some((_, rest)) => rest,
                None => "",
            };
            Ok(Some(Message::text(&format!("chat:{}", rest))))
        }
        "H2" => Ok(Some(Message::text("stats"))),
        _ => Ok(Some(Message::text("other"))),
    }
}

fn client(router: &mut TestRouter, id: &str) -> UnboundedReceiver<Message> {
    let (tx, rx) = unbounded_channel::<Message>();
    let conn = Connection::new(id.to_string(), "127.0.0.1:1".to_string(), 0, tx);
    router.connection_manager_mut().add(conn);
    rx
}

fn exchange(router: &TestRouter, rx: &mut UnboundedReceiver<Message>, text: &str) -> String {
    let message = Message::text(text);
    let dispatch = router.begin_dispatch(&"conn_0".to_string(), &message).unwrap();
    let handler = *dispatch.handler.unwrap();
    complete_dispatch(&dispatch.conn, run(handler, &message));
    rx.try_recv().unwrap().as_text().unwrap().to_string()
}

#[test]
fn route_dispatch_scenario() {
    let mut router = routes();
    let mut rx = client(&mut router, "conn_0");
    assert_eq!(exchange(&router, &mut rx, "/chat hello world"), "chat:hello world");
    assert_eq!(exchange(&router, &mut rx, "/unknown"), "other");
    assert_eq!(exchange(&router, &mut rx, "no slash"), "other");
    assert_eq!(exchange(&router, &mut rx, "/stats"), "stats");
}

#[test]
fn select_picks_the_route_of_the_first_token() {
    let router = routes();
    assert_eq!(router.select(&Message::text("/chat")), Some(&"H1"));
    assert_eq!(router.select(&Message::text("/chat hi")), Some(&"H1"));
    assert_eq!(router.select(&Message::text("/chat\thi")), Some(&"H1"));
    assert_eq!(router.select(&Message::text("/chat\nhi")), Some(&"H1"));
    assert_eq!(router.select(&Message::text("/stats now")), Some(&"H2"));
}

#[test]
fn select_falls_back_to_the_default_handler() {
    let router = routes();
    assert_eq!(router.select(&Message::text("/chatter")), Some(&"H0"));
    assert_eq!(router.select(&Message::text("/cha")), Some(&"H0"));
    assert_eq!(router.select(&Message::text(" /chat")), Some(&"H0"));
    assert_eq!(router.select(&Message::text("chat")), Some(&"H0"));
    assert_eq!(router.select(&Message::text("")), Some(&"H0"));
    assert_eq!(router.select(&Message::binary(b"/chat".to_vec())), Some(&"H0"));
    assert_eq!(router.select(&Message::ping(b"/chat".to_vec())), Some(&"H0"));
    let broken = Message { data: vec![b'/', b'c', 0xff], msg_type: MessageType::Text };
    assert_eq!(router.select(&broken), Some(&"H0"));
}

#[test]
fn select_without_a_default_handler_finds_nothing() {
    let router: TestRouter = Router::new().route("/chat", "H1");
    assert_eq!(router.select(&Message::text("/chat x")), Some(&"H1"));
    assert_eq!(router.select(&Message::text("/other")), None);
    assert_eq!(router.select(&Message::text("plain")), None);
    let empty: TestRouter = Router::new();
    assert_eq!(empty.select(&Message::text("/chat")), None);
}

#[test]
fn a_later_route_replaces_an_earlier_one() {
    let router: TestRouter = Router::new().route("/chat", "old").route("/chat", "new");
    assert_eq!(router.select(&Message::text("/chat")), Some(&"new"));
}

#[test]
fn message_key_is_the_first_token() {
    assert_eq!(message_key(&Message::text("/chat hello world")), Some(&b"/chat"[..]));
    assert_eq!(message_key(&Message::text("/chat")), Some(&b"/chat"[..]));
    assert_eq!(message_key(&Message::text("/")), Some(&b"/"[..]));
    assert_eq!(message_key(&Message::text("/a\r\nb")), Some(&b"/a"[..]));
    assert_eq!(message_key(&Message::text("chat")), None);
    assert_eq!(message_key(&Message::text("")), None);
    assert_eq!(message_key(&Message::binary(b"/chat".to_vec())), None);
}

#[test]
fn begin_dispatch_needs_a_registered_connection() {
    let mut router = routes();
    let message = Message::text("/chat hi");
    let err = match router.begin_dispatch(&"conn_0".to_string(), &message) {
        Err(e) => e,
        Ok(_) => panic!("dispatch started for an unknown connection"),
    };
    assert!(matches!(err, Error::ConnectionNotFound(ref id) if id == "conn_0"));
    assert_eq!(err.to_string(), "Connection not found: conn_0");

    let _rx = client(&mut router, "conn_0");
    let dispatch = router.begin_dispatch(&"conn_0".to_string(), &message).unwrap();
    assert_eq!(dispatch.conn.id(), "conn_0");
    assert_eq!(dispatch.handler, Some(&"H1"));

    router.connection_manager_mut().remove(&"conn_0".to_string());
    assert!(router.begin_dispatch(&"conn_0".to_string(), &message).is_err());
}

#[test]
fn protocol_of_tells_websocket_from_http() {
    let plain: TestRouter = Router::new();
    let serving: TestRouter = Router::new().serve_static("public");
    let upgrade = b"GET /ws HTTP/1.1\r\nHost: x\r\nUpgrade: websocket\r\nConnection: Upgrade\r\n\r\n";
    let get = b"GET /index.html HTTP/1.1\r\nHost: x\r\n\r\n";
    assert_eq!(plain.protocol_of(upgrade).unwrap(), Protocol::WebSocket);
    assert_eq!(serving.protocol_of(upgrade).unwrap(), Protocol::WebSocket);
    assert_eq!(serving.protocol_of(get).unwrap(), Protocol::Http);
    let err = plain.protocol_of(get).unwrap_err();
    assert_eq!(err.to_string(), "Custom error: No handler for HTTP requests");
}

#[test]
fn upgrade_detection_ignores_letter_case() {
    assert!(wants_upgrade(b"Upgrade: websocket"));
    assert!(wants_upgrade(b"upgrade: websocket"));
    assert!(wants_upgrade(b"UPGRADE: WEBSOCKET"));
    assert!(wants_upgrade(b"GET / HTTP/1.1\r\nuPgRaDe: WebSocket\r\n\r\n"));
    assert!(!wants_upgrade(b"Upgrade:websocket"));
    assert!(!wants_upgrade(b"Upgrade: websocke"));
    assert!(!wants_upgrade(b""));
}

#[test]
fn upgrade_detection_reads_the_first_1024_bytes() {
    let mut late = vec![b'x'; 1024];
    late.extend_from_slice(b"Upgrade: websocket");
    assert!(!wants_upgrade(&late));
    let mut split = vec![b'x'; 1024 - 5];
    split.extend_from_slice(b"Upgrade: websocket");
    assert!(!wants_upgrade(&split));
    let mut fits = vec![b'x'; 1024 - 18];
    fits.extend_from_slice(b"Upgrade: websocket");
    assert!(wants_upgrade(&fits));
}

#[test]
fn request_path_is_the_second_token_of_the_first_line() {
    assert_eq!(parse_request_path(b"GET / HTTP/1.1\r\n\r\n"), Some(b"/".to_vec()));
    assert_eq!(
        parse_request_path(b"GET /a/b.html HTTP/1.1\r\nHost: x\r\n\r\n"),
        Some(b"/a/b.html".to_vec())
    );
    assert_eq!(parse_request_path(b"HEAD /x HTTP/1.1\r\n"), Some(b"/x".to_vec()));
    assert_eq!(parse_request_path(b"  GET   /spaced   HTTP/1.1"), Some(b"/spaced".to_vec()));
    assert_eq!(parse_request_path(b"GET /only"), Some(b"/only".to_vec()));
}

#[test]
fn other_requests_have_no_path() {
    assert_eq!(parse_request_path(b"POST /a HTTP/1.1\r\n\r\n"), None);
    assert_eq!(parse_request_path(b"get /a HTTP/1.1\r\n\r\n"), None);
    assert_eq!(parse_request_path(b"GETX /a HTTP/1.1\r\n\r\n"), None);
    assert_eq!(parse_request_path(b"GET"), None);
    assert_eq!(parse_request_path(b"GET\r\n/a HTTP/1.1\r\n"), None);
    assert_eq!(parse_request_path(b""), None);
    assert_eq!(parse_request_path(b"\r\nGET /a HTTP/1.1\r\n"), None);
}

#[test]
fn requested_file_resolves_the_path_below_the_root() {
    let router: TestRouter = Router::new().serve_static("public");
    assert_eq!(router.requested_file(b"GET / HTTP/1.1\r\n\r\n").unwrap(), "public/");
    assert_eq!(
        router.requested_file(b"GET /css/site.css HTTP/1.1\r\n\r\n").unwrap(),
        "public/css/site.css"
    );
    assert_eq!(
        router.requested_file(b"GET /a%20b.txt HTTP/1.1\r\n\r\n").unwrap(),
        "public/a b.txt"
    );
    assert_eq!(
        router.requested_file(b"GET /../etc/passwd HTTP/1.1\r\n\r\n").unwrap(),
        "public/../etc/passwd"
    );
}

#[test]
fn requested_file_refuses_what_it_cannot_serve() {
    let plain: TestRouter = Router::new();
    let serving: TestRouter = Router::new().serve_static("public");
    assert_eq!(
        plain.requested_file(b"GET / HTTP/1.1\r\n\r\n").unwrap_err().to_string(),
        "Custom error: No handler for HTTP requests"
    );
    assert_eq!(
        serving.requested_file(b"DELETE / HTTP/1.1\r\n\r\n").unwrap_err().to_string(),
        "Custom error: Unsupported request"
    );
    let err = serving.requested_file(b"GET /%ff HTTP/1.1\r\n\r\n").unwrap_err();
    assert!(err.to_string().starts_with("Custom error: Invalid path encoding: "));
}

#[test]
fn builder_keeps_what_it_was_given() {
    let router: TestRouter = Router::new()
        .with_state(1, 10)
        .with_state(2, 20)
        .with_state(1, 11)
        .on_connect("joined")
        .on_disconnect("left")
        .serve_static("www");
    assert_eq!(router.state().get(1), Some(&11));
    assert_eq!(router.state().get(2), Some(&20));
    assert_eq!(router.state().len(), 2);
    assert_eq!(router.connect_callback(), Some(&"joined"));
    assert_eq!(router.disconnect_callback(), Some(&"left"));
    assert_eq!(router.static_files().unwrap().root(), "www");
    assert_eq!(router.static_files().unwrap().index_file(), "index.html");
    assert_eq!(router.connection_manager().count(), 0);
    let bare: TestRouter = Router::default();
    assert!(bare.connect_callback().is_none());
    assert!(bare.disconnect_callback().is_none());
    assert!(bare.static_files().is_none());
    assert!(bare.state().is_empty());
}

#[test]
fn the_router_generates_connection_ids() {
    let mut router: TestRouter = Router::new().route("/chat", "H1");
    assert_eq!(router.generate_connection_id(), "conn_0");
    assert_eq!(router.generate_connection_id(), "conn_1");
    assert_eq!(router.generate_connection_id(), "conn_2");
    assert_eq!(router.select(&Message::text("/chat")), Some(&"H1"));
}

#[test]
fn connection_ids_count_up_from_zero() {
    let mut ids = ConnectionIds::new();
    assert_eq!(ids.generate(), "conn_0");
    assert_eq!(ids.generate(), "conn_1");
    for _ in 2..10 {
        ids.generate();
    }
    assert_eq!(ids.generate(), "conn_10");
    for _ in 11..123 {
        ids.generate();
    }
    assert_eq!(ids.generate(), "conn_123");
}
