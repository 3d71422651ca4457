use tokio::sync::mpsc::{unbounded_channel, UnboundedReceiver};
use tokio_tungstenite::tungstenite::Message as TungsteniteMessage;
use wsforge::connection::ConnectionManager;
use wsforge::router::{complete_dispatch, reply_for, DispatchOutcome};
use wsforge::session::{Session, SessionAction, SessionEvent, SessionPhase};
use wsforge::Message;

fn established() -> SessionEvent {
    SessionEvent::Established { addr: "10.0.0.1:4000".to_string(), connected_at: 42 }
}

fn start(session: &mut Session, manager: &mut ConnectionManager) -> UnboundedReceiver<Message> {
    match session.step(manager, established()) {
        SessionAction::Connected { outbound, .. } => outbound,
        _ => panic!("the session did not start"),
    }
}

fn text_frame(text: &str) -> SessionEvent {
    SessionEvent::Inbound(TungsteniteMessage::Text(text.to_string()))
}

fn describe(action: &SessionAction) -> String {
    match action {
        SessionAction::Connected { id, .. } => format!("CONN:{}", id),
        SessionAction::Dispatch { id, message } => {
            format!("DISPATCH:{}:{}", id, message.as_text().unwrap_or("<bytes>"))
        }
        SessionAction::Write(_) => "WRITE".to_string(),
        SessionAction::Disconnected { id } => format!("DISC:{}", id),
        SessionAction::Ignore => "IGNORE".to_string(),
    }
}

#[test]
fn a_new_session_is_pending() {
    let session = Session::new("conn_0".to_string());
    assert_eq!(session.id(), "conn_0");
    assert_eq!(session.phase(), SessionPhase::Pending);
}

#[test]
fn hooks_run_in_order_for_one_client() {
    let mut manager = ConnectionManager::new();
    let mut session = Session::new("conn_0".to_string());
    let mut log = Vec::new();
    let events = vec![established(), SessionEvent::Inbound(TungsteniteMessage::Close(None))];
    for event in events {
        let action = session.step(&mut manager, event);
        match action {
            SessionAction::Connected { .. } | SessionAction::Disconnected { .. } => {
                log.push(describe(&action))
            }
            _ => {}
        }
    }
    assert_eq!(log, vec!["CONN:conn_0".to_string(), "DISC:conn_0".to_string()]);
}

#[test]
fn the_connection_is_registered_exactly_while_the_session_runs() {
    let mut manager = ConnectionManager::new();
    let id = "conn_3".to_string();
    let mut session = Session::new(id.clone());
    assert!(manager.get(&id).is_none());

    let action = session.step(&mut manager, established());
    assert!(matches!(action, SessionAction::Connected { ref id, count: 1, .. } if id == "conn_3"));
    assert_eq!(session.phase(), SessionPhase::Running);
    let conn = manager.get(&id).unwrap();
    assert_eq!(conn.id(), "conn_3");
    assert_eq!(conn.info().id, "conn_3");
    assert_eq!(conn.info().addr, "10.0.0.1:4000");
    assert_eq!(conn.info().connected_at, 42);
    assert_eq!(conn.info().protocol, None);
    assert_eq!(manager.count(), 1);

    session.step(&mut manager, text_frame("still here"));
    assert!(manager.get(&id).is_some());

    let action = session.step(&mut manager, SessionEvent::InboundEnded);
    assert!(matches!(action, SessionAction::Disconnected { ref id } if id == "conn_3"));
    assert_eq!(session.phase(), SessionPhase::Closed);
    assert!(manager.get(&id).is_none());
    assert_eq!(manager.count(), 0);
}

#[test]
fn the_session_hands_out_the_consumer_of_the_queue() {
    let mut manager = ConnectionManager::new();
    let mut session = Session::new("conn_0".to_string());
    let mut outbound = start(&mut session, &mut manager);
    let conn = manager.get(&"conn_0".to_string()).unwrap();
    conn.send_text("first").unwrap();
    conn.send_text("second").unwrap();
    assert_eq!(outbound.try_recv().unwrap().as_text(), Some("first"));
    assert_eq!(outbound.try_recv().unwrap().as_text(), Some("second"));
    assert!(outbound.try_recv().is_err());
}

#[test]
fn inbound_frames_are_dispatched_in_arrival_order() {
    let mut manager = ConnectionManager::new();
    let mut session = Session::new("conn_0".to_string());
    let _outbound = start(&mut session, &mut manager);
    let mut seen = Vec::new();
    for text in ["one", "two", "three"] {
        seen.push(describe(&session.step(&mut manager, text_frame(text))));
    }
    assert_eq!(
        seen,
        vec![
            "DISPATCH:conn_0:one".to_string(),
            "DISPATCH:conn_0:two".to_string(),
            "DISPATCH:conn_0:three".to_string()
        ]
    );
}

#[test]
fn binary_and_ping_frames_are_dispatched_too() {
    let mut manager = ConnectionManager::new();
    let mut session = Session::new("conn_0".to_string());
    let _outbound = start(&mut session, &mut manager);
    let binary = SessionEvent::Inbound(TungsteniteMessage::Binary(vec![1, 2]));
    match session.step(&mut manager, binary) {
        SessionAction::Dispatch { message, .. } => {
            assert!(message.is_binary());
            assert_eq!(message.as_bytes(), &[1, 2]);
        }
        _ => panic!("the binary frame was not dispatched"),
    }
    let ping = SessionEvent::Inbound(TungsteniteMessage::Ping(vec![7]));
    match session.step(&mut manager, ping) {
        SessionAction::Dispatch { message, .. } => assert!(message.is_ping()),
        _ => panic!("the ping frame was not dispatched"),
    }
}

#[test]
fn a_close_frame_is_never_dispatched() {
    let mut manager = ConnectionManager::new();
    let mut session = Session::new("conn_0".to_string());
    let _outbound = start(&mut session, &mut manager);
    let action = session.step(&mut manager, SessionEvent::Inbound(TungsteniteMessage::Close(None)));
    assert!(matches!(action, SessionAction::Disconnected { .. }));
}

#[test]
fn queued_messages_are_written_as_frames() {
    let mut manager = ConnectionManager::new();
    let mut session = Session::new("conn_0".to_string());
    let _outbound = start(&mut session, &mut manager);
    match session.step(&mut manager, SessionEvent::Outbound(Message::text("out"))) {
        SessionAction::Write(frame) => {
            assert_eq!(frame, TungsteniteMessage::Text("out".to_string()))
        }
        _ => panic!("the text message was not written"),
    }
    match session.step(&mut manager, SessionEvent::Outbound(Message::binary(vec![5]))) {
        SessionAction::Write(frame) => assert_eq!(frame, TungsteniteMessage::Binary(vec![5])),
        _ => panic!("the binary message was not written"),
    }
    assert_eq!(session.phase(), SessionPhase::Running);
}

#[test]
fn every_stop_event_ends_the_session() {
    let stops: Vec<fn() -> SessionEvent> = vec![
        || SessionEvent::InboundFailed,
        || SessionEvent::InboundEnded,
        || SessionEvent::OutboundEnded,
        || SessionEvent::WriteFailed,
        || SessionEvent::Inbound(TungsteniteMessage::Close(None)),
    ];
    for stop in stops {
        let mut manager = ConnectionManager::new();
        let mut session = Session::new("conn_0".to_string());
        let _outbound = start(&mut session, &mut manager);
        let action = session.step(&mut manager, stop());
        assert!(matches!(action, SessionAction::Disconnected { ref id } if id == "conn_0"));
        assert_eq!(session.phase(), SessionPhase::Closed);
        assert_eq!(manager.count(), 0);
    }
}

#[test]
fn nothing_is_dispatched_after_disconnect() {
    let mut manager = ConnectionManager::new();
    let mut session = Session::new("conn_0".to_string());
    let _outbound = start(&mut session, &mut manager);
    session.step(&mut manager, SessionEvent::WriteFailed);
    assert!(matches!(session.step(&mut manager, text_frame("late")), SessionAction::Ignore));
    assert!(matches!(
        session.step(&mut manager, SessionEvent::Outbound(Message::text("late"))),
        SessionAction::Ignore
    ));
    assert!(matches!(session.step(&mut manager, SessionEvent::InboundEnded), SessionAction::Ignore));
    assert!(matches!(session.step(&mut manager, established()), SessionAction::Ignore));
    assert_eq!(manager.count(), 0);
}

#[test]
fn events_before_the_start_are_ignored() {
    let mut manager = ConnectionManager::new();
    let mut session = Session::new("conn_0".to_string());
    assert!(matches!(session.step(&mut manager, text_frame("early")), SessionAction::Ignore));
    assert!(matches!(session.step(&mut manager, SessionEvent::WriteFailed), SessionAction::Ignore));
    assert_eq!(session.phase(), SessionPhase::Pending);
    assert_eq!(manager.count(), 0);
}

#[test]
fn a_second_start_is_ignored() {
    let mut manager = ConnectionManager::new();
    let mut session = Session::new("conn_0".to_string());
    let _outbound = start(&mut session, &mut manager);
    assert!(matches!(session.step(&mut manager, established()), SessionAction::Ignore));
    assert_eq!(manager.count(), 1);
    assert_eq!(session.phase(), SessionPhase::Running);
}

#[test]
fn sessions_leave_other_connections_alone() {
    let mut manager = ConnectionManager::new();
    let mut first = Session::new("conn_0".to_string());
    let mut second = Session::new("conn_1".to_string());
    let _a = start(&mut first, &mut manager);
    let action = second.step(&mut manager, established());
    assert!(matches!(action, SessionAction::Connected { count: 2, .. }));
    first.step(&mut manager, SessionEvent::InboundEnded);
    assert!(manager.get(&"conn_0".to_string()).is_none());
    assert!(manager.get(&"conn_1".to_string()).is_some());
}

#[test]
fn echo_replies_with_the_input() {
    let mut manager = ConnectionManager::new();
    let mut session = Session::new("conn_0".to_string());
    let mut outbound = start(&mut session, &mut manager);
    let action = session.step(&mut manager, text_frame("hello"));
    let (id, message) = match action {
        SessionAction::Dispatch { id, message } => (id, message),
        _ => panic!("the frame was not dispatched"),
    };
    let conn = manager.get(&id).unwrap();
    let done = complete_dispatch(&conn, Ok(Some(message)));
    assert!(matches!(done, DispatchOutcome::Replied));
    let queued = outbound.try_recv().unwrap();
    match session.step(&mut manager, SessionEvent::Outbound(queued)) {
        SessionAction::Write(frame) => {
            assert_eq!(frame, TungsteniteMessage::Text("hello".to_string()))
        }
        _ => panic!("the reply was not written"),
    }
}

#[test]
fn broadcast_except_sender_scenario() {
    let mut manager = ConnectionManager::new();
    let mut a = Session::new("conn_0".to_string());
    let mut b = Session::new("conn_1".to_string());
    let mut to_a = start(&mut a, &mut manager);
    let mut to_b = start(&mut b, &mut manager);
    let (sender, message) = match a.step(&mut manager, text_frame("hi")) {
        SessionAction::Dispatch { id, message } => (id, message),
        _ => panic!("the frame was not dispatched"),
    };
    manager.broadcast_except(&sender, message);
    let received = to_b.try_recv().unwrap();
    assert!(received.is_text());
    assert_eq!(received.as_text(), Some("hi"));
    assert!(to_b.try_recv().is_err());
    assert!(to_a.try_recv().is_err());
}

#[test]
fn a_failed_dispatch_replies_with_the_error_and_keeps_the_connection() {
    let mut manager = ConnectionManager::new();
    let mut session = Session::new("conn_0".to_string());
    let mut outbound = start(&mut session, &mut manager);
    let conn = manager.get(&"conn_0".to_string()).unwrap();
    let failed = wsforge::Error::extractor("State not found");
    let done = complete_dispatch(&conn, Err(failed));
    assert!(matches!(done, DispatchOutcome::Replied));
    let reply = outbound.try_recv().unwrap();
    assert!(reply.is_text());
    assert_eq!(reply.as_text(), Some("Error: Extractor error: State not found"));
    assert!(outbound.try_recv().is_err());
    assert_eq!(manager.count(), 1);
    assert_eq!(session.phase(), SessionPhase::Running);
    let next = session.step(&mut manager, text_frame("next"));
    assert!(matches!(next, SessionAction::Dispatch { .. }));
}

#[test]
fn reply_for_maps_each_handler_result() {
    let reply = reply_for(Ok(Some(Message::binary(vec![1])))).unwrap();
    assert!(reply.is_binary());
    assert!(reply_for(Ok(None)).is_none());
    let reply = reply_for(Err(wsforge::Error::handler("boom"))).unwrap();
    assert_eq!(reply.as_text(), Some("Error: Handler error: boom"));
    let reply = reply_for(Err(wsforge::Error::InvalidMessage)).unwrap();
    assert_eq!(reply.as_text(), Some("Error: Invalid message format"));
}

#[test]
fn complete_dispatch_reports_a_refused_reply() {
    let (tx, rx) = unbounded_channel::<Message>();
    let conn = wsforge::Connection::new("conn_0".to_string(), "a".to_string(), 0, tx);
    drop(rx);
    let done = complete_dispatch(&conn, Ok(Some(Message::text("lost"))));
    assert!(matches!(done, DispatchOutcome::ReplyRefused(wsforge::Error::Custom(_))));
    let done = complete_dispatch(&conn, Ok(None));
    assert!(matches!(done, DispatchOutcome::Silent));
}
