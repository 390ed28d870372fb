use cosmic_kvm::client::{ClientEvent, ClientSession, ClientTask};
use cosmic_kvm::events::{ClipboardData, ControlMessage, InputEvent, MouseButtonEvent};
use cosmic_kvm::message::{HandshakeMessage, Message, Payload, RejectMessage};
use cosmic_kvm::server::{ServerEvent, ServerSession, ServerTask};

fn click() -> InputEvent {
    InputEvent::MouseButton(MouseButtonEvent { time: 5, button: 0x110, pressed: true })
}

fn clip() -> ClipboardData {
    ClipboardData { mime_type: "text/plain".to_string(), data: b"hello".to_vec() }
}

fn rejection() -> Payload {
    Payload::Handshake(HandshakeMessage::Reject(RejectMessage { reason: "no".to_string() }))
}

fn forwarded(task: ServerTask) -> Message {
    match task {
        ServerTask::Forward(message) => message,
        other => panic!("nothing forwarded but {:?}", other),
    }
}

#[test]
fn input_goes_from_server_to_client() {
    let mut server = ServerSession::new(false);
    let mut client = ClientSession::new(false);
    let message = forwarded(server.step(ServerEvent::Input(click())));
    assert_eq!(message, Message::new(Payload::Input(click())));
    match client.step(ClientEvent::Received(message.payload)) {
        ClientTask::Inject(event) => assert_eq!(event, click()),
        other => panic!("nothing injected but {:?}", other),
    }
    assert_eq!(server.event_count, 1);
    assert_eq!(client.event_count, 1);
}

#[test]
fn the_clipboard_goes_both_ways() {
    let mut server = ServerSession::new(true);
    let mut client = ClientSession::new(true);
    let message = forwarded(server.step(ServerEvent::Clipboard(clip())));
    match client.step(ClientEvent::Received(message.payload)) {
        ClientTask::SetClipboard(data) => assert_eq!(data, clip()),
        other => panic!("not set but {:?}", other),
    }
    let message = match client.step(ClientEvent::ClipboardChanged(Some(clip()))) {
        ClientTask::Forward(message) => message,
        other => panic!("nothing forwarded but {:?}", other),
    };
    match server.step(ServerEvent::Received(message.payload)) {
        ServerTask::SetClipboard(data) => assert_eq!(data, clip()),
        other => panic!("not set but {:?}", other),
    }
    assert_eq!((server.event_count, client.event_count), (0, 0));
}

#[test]
fn a_clipboard_that_is_not_there_is_not_set() {
    let received = Payload::Clipboard(clip());
    let mut client = ClientSession::new(false);
    let task = client.step(ClientEvent::Received(received.clone()));
    assert!(matches!(task, ClientTask::Wait));
    let mut server = ServerSession::new(false);
    assert!(matches!(server.step(ServerEvent::Received(received)), ServerTask::Wait));
}

#[test]
fn a_heartbeat_is_answered_once() {
    let mut server = ServerSession::new(true);
    let mut client = ClientSession::new(true);
    let beat = forwarded(server.step(ServerEvent::HeartbeatDue));
    assert_eq!(beat.payload, Payload::Heartbeat);
    let reply = match client.step(ClientEvent::Received(beat.payload)) {
        ClientTask::Reply(message) => message,
        other => panic!("no reply but {:?}", other),
    };
    assert_eq!(reply.payload, Payload::Heartbeat);
    assert!(matches!(server.step(ServerEvent::Received(reply.payload)), ServerTask::Wait));
}

#[test]
fn a_client_stops_when_it_is_asked_to_or_cut_off() {
    let mut client = ClientSession::new(true);
    let mut told =
        |message: ControlMessage| client.step(ClientEvent::Received(Payload::Control(message)));
    assert!(matches!(told(ControlMessage::Disconnect), ClientTask::Stop));
    assert!(matches!(told(ControlMessage::Error("e".to_string())), ClientTask::Wait));
    assert!(matches!(told(ControlMessage::RequestFocus), ClientTask::Wait));
    assert!(matches!(told(ControlMessage::FocusAcquired), ClientTask::Wait));
    assert!(matches!(told(ControlMessage::ReleaseFocus), ClientTask::Wait));
    assert!(matches!(client.step(ClientEvent::ReceiveFailed), ClientTask::Stop));
    assert!(matches!(client.step(ClientEvent::SendFailed), ClientTask::Stop));
    assert!(matches!(client.step(ClientEvent::ClipboardChanged(None)), ClientTask::Wait));
    assert!(matches!(client.step(ClientEvent::Received(rejection())), ClientTask::Wait));
    assert_eq!(client.event_count, 0);
}

#[test]
fn a_server_session_stops_when_it_is_cut_off() {
    let mut server = ServerSession::new(true);
    assert!(matches!(server.step(ServerEvent::InputClosed), ServerTask::Stop));
    assert!(matches!(server.step(ServerEvent::ReceiveFailed), ServerTask::Stop));
    assert!(matches!(server.step(ServerEvent::SendFailed), ServerTask::Stop));
    assert!(matches!(server.step(ServerEvent::InputLagged(7)), ServerTask::Wait));
    assert!(matches!(server.step(ServerEvent::ClipboardLagged), ServerTask::Wait));
    assert!(matches!(server.step(ServerEvent::ClipboardClosed), ServerTask::Wait));
    assert!(matches!(server.step(ServerEvent::NothingReceived), ServerTask::Wait));
    let asked = Payload::Control(ControlMessage::Disconnect);
    assert!(matches!(server.step(ServerEvent::Received(asked)), ServerTask::Wait));
    assert!(matches!(server.step(ServerEvent::Received(rejection())), ServerTask::Wait));
}

#[test]
fn only_input_is_counted() {
    let mut server = ServerSession::new(true);
    for _ in 0..3 {
        server.step(ServerEvent::Input(click()));
        server.step(ServerEvent::HeartbeatDue);
    }
    assert_eq!(server.event_count, 3);
    let mut client = ClientSession::new(true);
    for _ in 0..2 {
        client.step(ClientEvent::Received(Payload::Input(click())));
        client.step(ClientEvent::Received(Payload::Heartbeat));
    }
    assert_eq!(client.event_count, 2);
}

#[test]
fn captured_events_are_injected_in_order() {
    let mut server = ServerSession::new(false);
    let mut client = ClientSession::new(false);
    let button = |button: u32| {
        InputEvent::MouseButton(MouseButtonEvent { time: 0, button, pressed: true })
    };
    let mut injected = Vec::new();
    let mut replies = 0;
    for number in 1..=4 {
        for event in [
            ServerEvent::Input(button(number)),
            ServerEvent::InputLagged(3),
            ServerEvent::HeartbeatDue,
            ServerEvent::NothingReceived,
        ] {
            if let ServerTask::Forward(message) = server.step(event) {
                match client.step(ClientEvent::Received(message.payload)) {
                    ClientTask::Inject(event) => injected.push(event),
                    ClientTask::Reply(reply) => {
                        assert_eq!(reply.payload, Payload::Heartbeat);
                        replies += 1;
                    }
                    other => panic!("unexpected {:?}", other),
                }
            }
        }
    }
    assert_eq!(injected, vec![button(1), button(2), button(3), button(4)]);
    assert_eq!(replies, 4);
}

#[test]
fn clipboards_are_shared_in_order() {
    let data = |byte: u8| ClipboardData { mime_type: "text/plain".to_string(), data: vec![byte] };
    let mut server = ServerSession::new(true);
    let mut client = ClientSession::new(true);
    let mut on_client = Vec::new();
    let mut on_server = Vec::new();
    for byte in 0..4 {
        let message = forwarded(server.step(ServerEvent::Clipboard(data(byte))));
        if let ClientTask::SetClipboard(set) = client.step(ClientEvent::Received(message.payload)) {
            on_client.push(set);
        }
        server.step(ServerEvent::ClipboardLagged);
        match client.step(ClientEvent::ClipboardChanged(Some(data(byte + 10)))) {
            ClientTask::Forward(message) => {
                let task = server.step(ServerEvent::Received(message.payload));
                if let ServerTask::SetClipboard(set) = task {
                    on_server.push(set);
                }
            }
            other => panic!("nothing forwarded but {:?}", other),
        }
    }
    assert_eq!(on_client, (0..4).map(data).collect::<Vec<_>>());
    assert_eq!(on_server, (10..14).map(data).collect::<Vec<_>>());
}
