use cosmic_kvm::config::{Config, Mode};
use cosmic_kvm::events::{ClipboardData, InputEvent, MouseButtonEvent};
use cosmic_kvm::message::{
    Capabilities, HandshakeMessage, HelloMessage, Message, Payload, RejectMessage, ResponseMessage,
};
use cosmic_kvm::server::{Refusal, ServerEvent};
use cosmic_kvm::service::{Service, ServiceAction, ServiceEvent, ServiceFailure, ServicePhase};

fn desk() -> Config {
    Config {
        device_name: "desk".to_string(),
        device_id: "desk-id".to_string(),
        enable_mdns: false,
        default_mode: Mode::Server,
        default_server: None,
    }
}

fn hello(version: &str) -> ServiceEvent {
    ServiceEvent::Received(Payload::Handshake(HandshakeMessage::Hello(HelloMessage {
        protocol_version: version.to_string(),
        device_name: "laptop".to_string(),
        device_id: "laptop-id".to_string(),
        capabilities: Capabilities::default(),
    })))
}

fn response() -> ServiceEvent {
    ServiceEvent::Received(Payload::Handshake(HandshakeMessage::Response(ResponseMessage {
        signature: vec![1, 2, 3, 4],
        cert_fingerprint: String::new(),
    })))
}

fn advance(service: Service, event: ServiceEvent) -> (Service, ServiceAction) {
    service.advance(event, &desk(), &"1.0".to_string())
}

fn click(button: u32) -> InputEvent {
    InputEvent::MouseButton(MouseButtonEvent { time: 0, button, pressed: true })
}

fn clip() -> ClipboardData {
    ClipboardData { mime_type: "text/plain".to_string(), data: vec![1] }
}

fn sent(action: ServiceAction) -> Message {
    match action {
        ServiceAction::Send(message) => message,
        other => panic!("nothing sent but {:?}", other),
    }
}

/// A service whose handshake is complete.
fn served() -> Service {
    let (service, action) = advance(Service::new(true), hello("1.0"));
    assert!(matches!(sent(action).payload, Payload::Handshake(HandshakeMessage::Challenge(_))));
    let (service, action) = advance(service, ServiceEvent::Sent);
    assert!(matches!(action, ServiceAction::Receive));
    let (service, action) = advance(service, response());
    match sent(action).payload {
        Payload::Handshake(HandshakeMessage::Accept(accept)) => {
            let uuid = accept.session_id.strip_prefix("session-").unwrap().to_string();
            assert_eq!(uuid::Uuid::parse_str(&uuid).unwrap().get_version_num(), 4);
        }
        other => panic!("not accepted but {:?}", other),
    }
    let (service, action) = advance(service, ServiceEvent::Sent);
    assert!(matches!(action, ServiceAction::Wait));
    service
}

#[test]
fn a_client_is_served_after_the_handshake() {
    let mut service = served();
    for button in 1..4 {
        let event = ServiceEvent::Happened(ServerEvent::Input(click(button)));
        let (next, action) = advance(service, event);
        assert_eq!(sent(action).payload, Payload::Input(click(button)));
        let (next, action) = advance(next, ServiceEvent::Sent);
        assert!(matches!(action, ServiceAction::Wait));
        let (next, action) = advance(next, ServiceEvent::Happened(ServerEvent::InputLagged(9)));
        assert!(matches!(action, ServiceAction::Wait));
        service = next;
    }
    let received = ServerEvent::Received(Payload::Clipboard(clip()));
    let (service, action) = advance(service, ServiceEvent::Happened(received));
    match action {
        ServiceAction::SetClipboard(data) => assert_eq!(data, clip()),
        other => panic!("not set but {:?}", other),
    }
    let (service, action) = advance(service, ServiceEvent::Happened(ServerEvent::InputClosed));
    match action {
        ServiceAction::End(hello, session) => {
            assert_eq!(hello.device_name, "laptop");
            assert_eq!(session.event_count, 3);
        }
        other => panic!("not ended but {:?}", other),
    }
    let (_, action) = advance(service, ServiceEvent::Happened(ServerEvent::HeartbeatDue));
    assert!(matches!(action, ServiceAction::Nothing));
}

#[test]
fn nothing_is_served_before_the_handshake() {
    let early = || ServiceEvent::Happened(ServerEvent::Input(click(1)));
    let (service, action) = advance(Service::new(true), early());
    assert!(matches!(action, ServiceAction::Nothing));
    let (service, _) = advance(service, hello("1.0"));
    let (service, action) = advance(service, early());
    assert!(matches!(action, ServiceAction::Nothing));
    let (service, _) = advance(service, ServiceEvent::Sent);
    let (service, _) = advance(service, response());
    let (service, action) = advance(service, early());
    assert!(matches!(action, ServiceAction::Nothing));
    assert!(matches!(service.phase, ServicePhase::Accepting(_)));
}

#[test]
fn a_refused_client_is_sent_nothing_more() {
    let (service, action) = advance(Service::new(true), hello("0.9"));
    let reason = "Protocol version mismatch: expected 1.0, got 0.9".to_string();
    let reject = Payload::Handshake(HandshakeMessage::Reject(RejectMessage { reason }));
    assert_eq!(sent(action).payload, reject);
    let (service, action) = advance(service, ServiceEvent::Sent);
    let failure = ServiceFailure::Refused(Refusal::VersionMismatch);
    assert!(matches!(action, ServiceAction::Fail(why) if why == failure));
    for event in [hello("1.0"), response(), ServiceEvent::Sent] {
        let over = Service { clipboard: service.clipboard, phase: ServicePhase::Over };
        let (after, action) = advance(over, event);
        assert!(matches!(action, ServiceAction::Nothing));
        assert!(matches!(after.phase, ServicePhase::Over));
    }
}

#[test]
fn a_refusal_that_cannot_be_sent() {
    let (service, _) = advance(Service::new(true), hello("0.9"));
    let (_, action) = advance(service, ServiceEvent::SendFailed);
    assert!(matches!(action, ServiceAction::Fail(ServiceFailure::Connection)));
    let (service, _) = advance(Service::new(true), response());
    let (_, action) = advance(service, ServiceEvent::SendFailed);
    let failure = ServiceFailure::Refused(Refusal::ExpectedHello);
    assert!(matches!(action, ServiceAction::Fail(why) if why == failure));
}

#[test]
fn a_failed_connection_ends_the_service() {
    let (_, action) = advance(Service::new(true), ServiceEvent::ReceiveFailed);
    assert!(matches!(action, ServiceAction::Fail(ServiceFailure::Connection)));
    let (service, _) = advance(Service::new(true), hello("1.0"));
    let (_, action) = advance(service, ServiceEvent::SendFailed);
    assert!(matches!(action, ServiceAction::Fail(ServiceFailure::Connection)));
    let event = ServiceEvent::Happened(ServerEvent::Clipboard(clip()));
    let (service, action) = advance(served(), event);
    assert_eq!(sent(action).payload, Payload::Clipboard(clip()));
    let (_, action) = advance(service, ServiceEvent::SendFailed);
    assert!(matches!(action, ServiceAction::End(_, _)));
}

#[test]
fn clients_are_sent_the_same() {
    let mut services = [Some(served()), Some(served())];
    let mut inputs = [Vec::new(), Vec::new()];
    for button in 1..5 {
        for (service, received) in services.iter_mut().zip(inputs.iter_mut()) {
            let event = ServiceEvent::Happened(ServerEvent::Input(click(button)));
            let (next, action) = advance(service.take().unwrap(), event);
            received.push(sent(action).payload);
            let (next, _) = advance(next, ServiceEvent::Sent);
            *service = Some(next);
        }
    }
    assert_eq!(inputs[0], (1..5).map(|button| Payload::Input(click(button))).collect::<Vec<_>>());
    assert_eq!(inputs[0], inputs[1]);
}
