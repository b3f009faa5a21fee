use alpaca::{AlpacaMessage, Connection, DecodeError, Error, Frame, Input, Output, Phase, Session, TransportError};

fn text(s: &str) -> Frame {
    Frame::Text(s.to_string())
}

fn session(events: &[&str]) -> Session {
    Session::new(Connection::new(
        "ws://localhost:12345".into(),
        "key".into(),
        "secret".into(),
        events.iter().map(|e| e.to_string()).collect(),
    ))
}

const AUTHORIZED: &str = r#"{"stream":"authorization","data":{"status":"authorized","action":"authenticate"}}"#;

fn sent(o: Output) -> String {
    match o {
        Output::SendAndReceive(t) => t,
        _ => panic!("expected a frame to send"),
    }
}

#[test]
fn test_connection() {
    let mut s = session(&["account_updates", "trade_updates"]);
    let auth_request = sent(s.step(Input::Opened));
    assert_eq!(auth_request, r#"{"action":"authenticate","data":{"key_id":"key","secret_key":"secret"}}"#);
    let subscription_request = sent(s.on_frame(text(AUTHORIZED)));
    assert_eq!(
        subscription_request,
        r#"{"action":"listen","data":{"streams":["account_updates","trade_updates"]}}"#
    );
    let reply = r#"{"stream":"listening","data":{"streams":["account_updates","trade_updates"]}}"#;
    assert!(matches!(s.on_frame(text(reply)), Output::Ready));
    assert_eq!(s.current_phase(), Phase::Streaming);
}

#[test]
fn end_to_end_handshake() {
    let mut s = Session::new(Connection::new("ws://h".into(), "k".into(), "s".into(), vec!["trade_updates".into()]));
    assert_eq!(s.current_phase(), Phase::Connecting);
    assert_eq!(sent(s.step(Input::Opened)), r#"{"action":"authenticate","data":{"key_id":"k","secret_key":"s"}}"#);
    assert_eq!(s.current_phase(), Phase::Authenticating);
    assert_eq!(sent(s.on_frame(text(AUTHORIZED))), r#"{"action":"listen","data":{"streams":["trade_updates"]}}"#);
    assert_eq!(s.current_phase(), Phase::Subscribing);
    let out = s.on_frame(text(r#"{"stream":"listening","data":{"streams":["trade_updates"]}}"#));
    assert!(matches!(out, Output::Ready));
}

#[test]
fn unauthorized_reply_fails_without_listen() {
    let mut s = session(&["trade_updates"]);
    sent(s.step(Input::Opened));
    let out = s.on_frame(text(r#"{"stream":"authorization","data":{"status":"unauthorized","action":"authenticate"}}"#));
    assert!(matches!(out, Output::Failed(Error::ConnectionFailure(ref a)) if a == "authenticate"));
    assert_eq!(s.current_phase(), Phase::Closed);
    assert!(matches!(s.on_frame(text(AUTHORIZED)), Output::End));
    assert!(matches!(s.subscribe(&vec!["trade_updates".to_string()]), Output::Failed(Error::StreamClosed)));
}

#[test]
fn unexpected_reply_to_authentication_fails() {
    let mut s = session(&["trade_updates"]);
    sent(s.step(Input::Opened));
    let out = s.on_frame(text(r#"{"stream":"listening","data":{"streams":[]}}"#));
    assert!(matches!(out, Output::Failed(Error::ConnectionFailure(ref r)) if r == "unexpected reply to authentication"));
}

#[test]
fn control_frames_are_passed_over() {
    let mut s = session(&["trade_updates"]);
    sent(s.step(Input::Opened));
    assert!(matches!(s.on_frame(Frame::Control), Output::Receive));
    assert_eq!(s.current_phase(), Phase::Authenticating);
    sent(s.on_frame(text(AUTHORIZED)));
}

#[test]
fn handshake_decode_failure_is_terminal() {
    let mut s = session(&["trade_updates"]);
    sent(s.step(Input::Opened));
    assert!(matches!(s.on_frame(text("nonsense")), Output::Failed(Error::Decode(DecodeError::Malformed))));
    assert_eq!(s.current_phase(), Phase::Closed);
}

#[test]
fn handshake_closure_fails_with_stream_closed() {
    let mut s = session(&["trade_updates"]);
    sent(s.step(Input::Opened));
    assert!(matches!(s.step(Input::Ended), Output::Failed(Error::StreamClosed)));
    let mut t = session(&["trade_updates"]);
    assert!(matches!(
        t.step(Input::Failed(TransportError::Failure("refused".into()))),
        Output::Failed(Error::Transport(TransportError::Failure(_)))
    ));
}

#[test]
fn mismatched_listening_reply_fails() {
    let mut s = session(&["trade_updates", "account_updates"]);
    sent(s.step(Input::Opened));
    sent(s.on_frame(text(AUTHORIZED)));
    let out = s.on_frame(text(r#"{"stream":"listening","data":{"streams":["trade_updates"]}}"#));
    assert!(matches!(out, Output::Failed(Error::ConnectionFailure(ref r)) if r == "subscription not confirmed"));
}

#[test]
fn listening_reply_in_other_order_is_accepted() {
    let mut s = session(&["trade_updates", "account_updates"]);
    sent(s.step(Input::Opened));
    sent(s.on_frame(text(AUTHORIZED)));
    let out = s.on_frame(text(r#"{"stream":"listening","data":{"streams":["account_updates","trade_updates"]}}"#));
    assert!(matches!(out, Output::Ready));
}

fn streaming() -> Session {
    let mut s = session(&["trade_updates"]);
    sent(s.step(Input::Opened));
    sent(s.on_frame(text(AUTHORIZED)));
    assert!(matches!(
        s.on_frame(text(r#"{"stream":"listening","data":{"streams":["trade_updates"]}}"#)),
        Output::Ready
    ));
    s
}

#[test]
fn closure_yields_one_error_then_ends() {
    let mut s = streaming();
    assert!(matches!(s.step(Input::Ended), Output::Item(Err(Error::StreamClosed))));
    assert!(matches!(s.step(Input::Ended), Output::End));
    assert!(matches!(s.on_frame(text(AUTHORIZED)), Output::End));
}

#[test]
fn transport_failure_while_streaming_is_terminal() {
    let mut s = streaming();
    assert!(matches!(
        s.step(Input::Failed(TransportError::Closed)),
        Output::Item(Err(Error::Transport(TransportError::Closed)))
    ));
    assert!(matches!(s.step(Input::Control), Output::End));
}

#[test]
fn unknown_message_while_streaming_is_a_decode_error() {
    let mut s = streaming();
    let out = s.on_frame(text(r#"{"stream":"unknown_thing","data":{}}"#));
    assert!(matches!(out, Output::Item(Err(Error::Decode(DecodeError::UnrecognizedMessage)))));
    assert_eq!(s.current_phase(), Phase::Streaming);
    let next = s.on_frame(Frame::Binary(AUTHORIZED.as_bytes().to_vec()));
    assert!(matches!(next, Output::Item(Ok(AlpacaMessage::Authorization { .. }))));
}

#[test]
fn further_subscription_consumes_one_reply() {
    let mut s = streaming();
    let request = sent(s.subscribe(&vec!["account_updates".to_string()]));
    assert_eq!(request, r#"{"action":"listen","data":{"streams":["account_updates"]}}"#);
    assert_eq!(s.current_phase(), Phase::Resubscribing);
    assert!(matches!(s.on_frame(Frame::Control), Output::Receive));
    let out = s.on_frame(text(r#"{"stream":"listening","data":{"streams":["trade_updates","account_updates"]}}"#));
    assert!(matches!(out, Output::Subscribed));
    assert_eq!(s.current_phase(), Phase::Streaming);
    sent(s.subscribe(&vec!["x".to_string()]));
}

#[test]
fn subscription_before_streaming_is_refused() {
    let mut s = session(&["trade_updates"]);
    assert!(matches!(s.subscribe(&vec!["x".to_string()]), Output::Failed(Error::UninitializedClient)));
    assert_eq!(s.current_phase(), Phase::Connecting);
}
