use nowhear::error::MediaSourceError;

#[test]
fn test_player_not_found_display() {
    let err = MediaSourceError::PlayerNotFound("spotify".to_string());
    assert_eq!(err.to_string(), "Player not found: spotify");
}

#[test]
fn test_connection_error_display() {
    let err = MediaSourceError::ConnectionError("timeout".to_string());
    assert_eq!(
        err.to_string(),
        "Failed to connect to media service: timeout"
    );
}

#[test]
fn test_parse_error_display() {
    let err = MediaSourceError::ParseError("invalid JSON".to_string());
    assert_eq!(
        err.to_string(),
        "Failed to parse media information: invalid JSON"
    );
}

#[test]
fn test_unsupported_platform_display() {
    let err = MediaSourceError::UnsupportedPlatform;
    assert_eq!(err.to_string(), "Platform not supported");
}

#[test]
fn test_internal_error_display() {
    let err = MediaSourceError::InternalError("unexpected state".to_string());
    assert_eq!(err.to_string(), "Internal error: unexpected state");
}

#[test]
fn test_from_serde_json_error() {
    let json_err = serde_json::from_str::<serde_json::Value>("{invalid}")
        .expect_err("input is intentionally malformed JSON");
    let err = MediaSourceError::from(json_err);
    assert!(matches!(err, MediaSourceError::ParseError(_)));
}

#[test]
fn json_errors_keep_their_text() {
    let json_err = serde_json::from_str::<serde_json::Value>("[1,").unwrap_err();
    let text = json_err.to_string();
    assert_eq!(
        MediaSourceError::from(json_err),
        MediaSourceError::ParseError(text)
    );
}

#[test]
fn bus_errors_are_connection_errors() {
    let text = zbus::Error::Unsupported.to_string();
    assert_eq!(
        MediaSourceError::from(zbus::Error::Unsupported),
        MediaSourceError::ConnectionError(text)
    );
}

#[test]
fn value_errors_are_parse_errors() {
    let text = zbus::zvariant::Error::IncorrectType.to_string();
    assert_eq!(
        MediaSourceError::from(zbus::zvariant::Error::IncorrectType),
        MediaSourceError::ParseError(text)
    );
}

#[test]
fn bus_daemon_errors_are_parse_errors() {
    let error = zbus::fdo::Error::NameHasNoOwner("gone".to_string());
    let text = error.to_string();
    assert_eq!(
        MediaSourceError::from(error),
        MediaSourceError::ParseError(text)
    );
}

#[test]
fn errors_are_cloned() {
    for error in [
        MediaSourceError::PlayerNotFound("a".to_string()),
        MediaSourceError::ConnectionError("b".to_string()),
        MediaSourceError::ParseError("c".to_string()),
        MediaSourceError::UnsupportedPlatform,
        MediaSourceError::InternalError("d".to_string()),
    ] {
        assert_eq!(error.clone(), error);
    }
}
