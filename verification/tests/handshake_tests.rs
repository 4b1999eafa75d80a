use franz::handshake::{
    client_action, handshake_line, handshake_max_line_length, ClientAction, Codec, Handshake,
    HandshakeError, Mode, Response,
};

fn handshake(mode: Mode) -> Handshake {
    Handshake { topic: "test-topic".to_string(), mode, codec: Codec::default() }
}

#[test]
fn codec_defaults_to_lines() {
    assert_eq!(Codec::default(), Codec::Lines);
}

#[test]
fn error_texts() {
    assert_eq!(HandshakeError::EmptyMessage.to_string(), "received empty message");
    assert_eq!(
        HandshakeError::JsonError("unknown variant `testing`".to_string()).to_string(),
        "unknown variant `testing`"
    );
    assert_eq!(
        HandshakeError::LinesCodecError("max line length exceeded".to_string()).to_string(),
        "max line length exceeded"
    );
}

#[test]
fn rejection_carries_error_text() {
    let response = Response::rejection(&HandshakeError::EmptyMessage);
    assert_eq!(response.status, Err("received empty message".to_string()));
}

#[test]
fn line_limit() {
    assert_eq!(handshake_max_line_length(), 65535);
}

#[test]
fn closed_connection_is_empty_message() {
    assert!(matches!(handshake_line(Ok(None)), Err(HandshakeError::EmptyMessage)));
}

#[test]
fn first_line_is_passed_on() {
    let line = "{\"topic\": \"t\", \"mode\": \"Produce\"}".to_string();
    assert_eq!(handshake_line(Ok(Some(line.clone()))).unwrap(), line);
}

#[test]
fn read_error_is_passed_on() {
    let err = HandshakeError::LinesCodecError("max line length exceeded".to_string());
    match handshake_line(Err(err)) {
        Err(HandshakeError::LinesCodecError(text)) => assert_eq!(text, "max line length exceeded"),
        other => panic!("unexpected {:?}", other),
    }
}

#[test]
fn producer_handshake_starts_producer_session() {
    match client_action(Ok(handshake(Mode::Produce))) {
        ClientAction::Produce(hs) => {
            assert_eq!(hs.topic, "test-topic");
            assert_eq!(hs.codec, Codec::Lines);
        }
        other => panic!("unexpected {:?}", other),
    }
}

#[test]
fn consumer_handshake_starts_consumer_session() {
    assert!(matches!(client_action(Ok(handshake(Mode::Consume))), ClientAction::Consume(_)));
}

#[test]
fn failed_handshake_is_rejected() {
    let err = HandshakeError::JsonError("unknown variant `testing`, expected `Produce` or `Consume`".to_string());
    match client_action(Err(err)) {
        ClientAction::Reject(response) => assert_eq!(
            response.status,
            Err("unknown variant `testing`, expected `Produce` or `Consume`".to_string())
        ),
        other => panic!("unexpected {:?}", other),
    }
    match client_action(Err(HandshakeError::EmptyMessage)) {
        ClientAction::Reject(response) => {
            assert_eq!(response.status, Err("received empty message".to_string()))
        }
        other => panic!("unexpected {:?}", other),
    }
}
