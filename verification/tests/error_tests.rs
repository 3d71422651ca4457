use wsforge::{Error, Result};

#[test]
fn test_custom_error() {
    let err = Error::custom("test error");
    assert!(matches!(err, Error::Custom(_)));
    assert_eq!(err.to_string(), "Custom error: test error");
}

#[test]
fn test_handler_error() {
    let err = Error::handler("handler failed");
    assert!(matches!(err, Error::Handler(_)));
    assert_eq!(err.to_string(), "Handler error: handler failed");
}

#[test]
fn test_extractor_error() {
    let err = Error::extractor("missing field");
    assert!(matches!(err, Error::Extractor(_)));
    assert_eq!(err.to_string(), "Extractor error: missing field");
}

#[test]
fn test_connection_not_found() {
    let err = Error::ConnectionNotFound("conn_123".to_string());
    assert_eq!(err.to_string(), "Connection not found: conn_123");
}

#[test]
fn test_route_not_found() {
    let err = Error::RouteNotFound("/api/users".to_string());
    assert_eq!(err.to_string(), "Route not found: /api/users");
}

#[test]
fn test_error_from_io() {
    let io_err = std::io::Error::new(std::io::ErrorKind::NotFound, "file not found");
    let err = Error::from(io_err);
    assert!(matches!(err, Error::Io(_)));
}

#[test]
fn io_error_keeps_its_message() {
    let io_err = std::io::Error::new(std::io::ErrorKind::NotFound, "file not found");
    assert_eq!(Error::from(io_err).to_string(), "IO error: file not found");
}

#[test]
fn websocket_error_keeps_its_message() {
    let closed = tokio_tungstenite::tungstenite::Error::ConnectionClosed;
    let err = Error::from(closed);
    assert!(matches!(err, Error::WebSocket(_)));
    assert_eq!(err.to_string(), "WebSocket error: Connection closed normally");
    let utf8 = Error::from(tokio_tungstenite::tungstenite::Error::Utf8);
    assert_eq!(utf8.to_string(), "WebSocket error: UTF-8 encoding error");
}

#[test]
fn test_error_from_json() {
    let json_err = serde_json::from_str::<serde_json::Value>("invalid json").unwrap_err();
    let err = Error::from(json_err);
    assert!(matches!(err, Error::Json(_)));
}

fn returns_result() -> Result<String> {
    Ok("success".to_string())
}

#[test]
fn test_result_type_alias() {
    assert!(returns_result().is_ok());
}

#[test]
fn test_error_display_formatting() {
    let errors = vec![
        Error::custom("custom message"),
        Error::handler("handler message"),
        Error::extractor("extractor message"),
        Error::InvalidMessage,
    ];

    for err in errors {
        let display = format!("{}", err.to_string());
        assert!(!display.is_empty());
    }
}

#[test]
fn display_text_of_every_variant() {
    assert_eq!(Error::WebSocket("bad frame".to_string()).to_string(), "WebSocket error: bad frame");
    assert_eq!(Error::Io("broken pipe".to_string()).to_string(), "IO error: broken pipe");
    assert_eq!(Error::Json("eof".to_string()).to_string(), "JSON error: eof");
    assert_eq!(Error::InvalidMessage.to_string(), "Invalid message format");
}

#[test]
fn json_error_keeps_the_library_message() {
    let json_err = serde_json::from_str::<serde_json::Value>("invalid json").unwrap_err();
    let expected = format!("JSON error: {}", json_err);
    assert_eq!(Error::from(json_err).to_string(), expected);
}
