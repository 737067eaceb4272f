use hass_rs::websocket::{
    receive_step, send_step, websocket_endpoint, EndpointError, ReceiveEvent, ReceiveStep,
    SendEvent, SendStep, PING_INTERVAL_SECS, RECEIVE_TIMEOUT_SECS, RECONNECT_DELAY_SECS,
};
use hass_rs::{Auth, Command, HassConfig, Response, WSPong};

#[test]
fn endpoint_of_a_valid_url() {
    let c = HassConfig::from_parts("t".to_string(), "ws://192.168.1.2:8123".to_string());
    match websocket_endpoint(&c) {
        Ok(u) => assert_eq!(u.as_str(), "ws://192.168.1.2:8123/api/websocket"),
        Err(_) => panic!("expected a URL"),
    }
}

#[test]
fn endpoint_of_an_invalid_url() {
    let c = HassConfig::from_parts("t".to_string(), "homeassistant".to_string());
    match websocket_endpoint(&c) {
        Ok(_) => panic!("a relative address is no URL"),
        Err(EndpointError::InvalidUrl(a)) => assert_eq!(a, "homeassistant/api/websocket"),
    }
}

#[test]
fn sending_half_decisions() {
    let step = send_step(SendEvent::Command(Command::Auth(Auth { access_token: "x".to_string() })));
    match step {
        SendStep::Transmit(Command::Auth(a)) => assert_eq!(a.access_token, "x"),
        _ => panic!("expected a transmission"),
    }
    assert!(matches!(send_step(SendEvent::Idle), SendStep::Ping));
    assert!(matches!(send_step(SendEvent::ChannelClosed), SendStep::Stop));
}

#[test]
fn receiving_half_decisions() {
    match receive_step(ReceiveEvent::Message(Response::Pong(WSPong { id: 7 }))) {
        ReceiveStep::Forward(Response::Pong(p)) => assert_eq!(p.id, 7),
        _ => panic!("expected the message forwarded"),
    }
    for e in [ReceiveEvent::Unreadable, ReceiveEvent::Ping, ReceiveEvent::Pong, ReceiveEvent::OtherFrame] {
        assert!(matches!(receive_step(e), ReceiveStep::Continue));
    }
    for e in [ReceiveEvent::Close, ReceiveEvent::Error, ReceiveEvent::StreamEnded, ReceiveEvent::TimedOut] {
        assert!(matches!(receive_step(e), ReceiveStep::Stop));
    }
}

#[test]
fn transport_timings() {
    assert_eq!(PING_INTERVAL_SECS, 8);
    assert_eq!(RECEIVE_TIMEOUT_SECS, 18);
    assert_eq!(RECONNECT_DELAY_SECS, 5);
}
