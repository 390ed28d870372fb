use cosmic_kvm::client::{
    Client, ClientHandshake, ClientHandshakeError, ClientStep, RunAction, RunFailure,
};
use cosmic_kvm::config::{choose_mode, plan, Config, Launch, Mode, NoServerAddress, Request};
use cosmic_kvm::message::{
    AcceptMessage, Capabilities, ChallengeMessage, HandshakeMessage, HelloMessage, Message, Payload,
    RejectMessage, ResponseMessage,
};
use cosmic_kvm::server::{
    bind_failure_text, Refusal, Server, ServerAction, ServerFailure, ServerHandshake, ServerStep,
};

fn config(name: &str) -> Config {
    Config {
        device_name: name.to_string(),
        device_id: format!("{}-id", name),
        enable_mdns: true,
        default_mode: Mode::Client,
        default_server: None,
    }
}

fn hello(version: &str) -> HelloMessage {
    HelloMessage {
        protocol_version: version.to_string(),
        device_name: "laptop".to_string(),
        device_id: "laptop-id".to_string(),
        capabilities: Capabilities::default(),
    }
}

fn handshake(message: HandshakeMessage) -> Payload {
    Payload::Handshake(message)
}

fn response() -> Payload {
    handshake(HandshakeMessage::Response(ResponseMessage {
        signature: vec![],
        cert_fingerprint: String::new(),
    }))
}

fn rejection(reason: &str) -> Message {
    Message::new(handshake(HandshakeMessage::Reject(RejectMessage { reason: reason.to_string() })))
}

#[test]
fn a_client_says_hello() {
    let client = Client::new(config("laptop"), "desk:24900".to_string());
    let message = client.hello("1.0");
    assert_eq!(message.payload, handshake(HandshakeMessage::Hello(hello("1.0"))));
    assert_eq!(client.server_address(), "desk:24900");
}

#[test]
fn machines_of_one_version_come_together() {
    let version = "1.0".to_string();
    let client = Client::new(config("laptop"), "desk:24900".to_string());
    let desk = config("desk");
    let mut shaking = ClientHandshake::AwaitingChallenge;

    let first = ServerHandshake::new().step(client.hello("1.0").payload, &desk, &version);
    let (challenge, waiting) = match first {
        ServerStep::Challenge(message, next) => (message, next),
        other => panic!("no challenge but {:?}", other),
    };
    assert_eq!(
        challenge.payload,
        handshake(HandshakeMessage::Challenge(ChallengeMessage {
            nonce: vec![1, 2, 3, 4],
            cert_fingerprint: "server-fingerprint".to_string(),
        }))
    );

    let answer = match shaking.step(challenge.payload) {
        ClientStep::Answer(message) => message,
        other => panic!("no answer but {:?}", other),
    };
    assert_eq!(
        answer.payload,
        handshake(HandshakeMessage::Response(ResponseMessage {
            signature: vec![1, 2, 3, 4],
            cert_fingerprint: "client-fingerprint".to_string(),
        }))
    );

    let (verdict, greeted) = match waiting.step(answer.payload, &desk, &version) {
        ServerStep::Accept(message, hello) => (message, hello),
        other => panic!("not accepted but {:?}", other),
    };
    assert_eq!(greeted, hello("1.0"));

    let accept = match shaking.step(verdict.payload) {
        ClientStep::Done(accept) => accept,
        other => panic!("not done but {:?}", other),
    };
    assert_eq!(accept.device_name, "desk");
    let uuid = accept.session_id.strip_prefix("session-").unwrap().to_string();
    assert_eq!(uuid.len(), 36);
    let parsed = uuid::Uuid::parse_str(&uuid).unwrap();
    assert_eq!(parsed.get_version_num(), 4);
    assert_eq!(parsed.to_string(), uuid);
}

#[test]
fn sessions_are_told_apart() {
    let desk = config("desk");
    let version = "1.0".to_string();
    let session = || {
        let waiting = ServerHandshake::AwaitingResponse(hello("1.0"));
        match waiting.step(response(), &desk, &version) {
            ServerStep::Accept(message, _) => message,
            other => panic!("not accepted but {:?}", other),
        }
    };
    assert_ne!(session(), session());
}

#[test]
fn a_session_is_named_after_its_uuid() {
    let desk = config("desk");
    let waiting = ServerHandshake::AwaitingResponse(hello("1.0"));
    match waiting.step_with(response(), &desk, &"1.0".to_string(), "xyz") {
        ServerStep::Accept(message, greeted) => {
            assert_eq!(
                message.payload,
                handshake(HandshakeMessage::Accept(AcceptMessage {
                    device_name: "desk".to_string(),
                    capabilities: Capabilities::default(),
                    session_id: "session-xyz".to_string(),
                }))
            );
            assert_eq!(greeted, hello("1.0"));
        }
        other => panic!("not accepted but {:?}", other),
    }
}

#[test]
fn another_version_is_refused_and_told() {
    let desk = config("desk");
    let received = handshake(HandshakeMessage::Hello(hello("0.9")));
    match ServerHandshake::new().step(received, &desk, &"1.0".to_string()) {
        ServerStep::Refuse(message, refusal) => {
            let reason = "Protocol version mismatch: expected 1.0, got 0.9";
            assert_eq!(message, rejection(reason));
            assert_eq!(refusal, Refusal::VersionMismatch);
            assert_eq!(refusal.text(), "Protocol version mismatch");
            assert!(refusal.must_be_told());
            match ClientHandshake::AwaitingChallenge.step(message.payload) {
                ClientStep::Fail(error) => assert_eq!(
                    error.text(""),
                    "Server rejected connection: Protocol version mismatch: expected 1.0, got 0.9"
                ),
                other => panic!("not failed but {:?}", other),
            }
        }
        other => panic!("not refused but {:?}", other),
    }
}

#[test]
fn a_client_without_hello_is_refused() {
    let desk = config("desk");
    for received in [Payload::Heartbeat, response()] {
        match ServerHandshake::new().step(received, &desk, &"1.0".to_string()) {
            ServerStep::Refuse(message, refusal) => {
                assert_eq!(message, rejection("Expected Hello message"));
                assert_eq!(refusal, Refusal::ExpectedHello);
                assert_eq!(refusal.text(), "Expected Hello message");
                assert!(!refusal.must_be_told());
            }
            other => panic!("not refused but {:?}", other),
        }
    }
}

#[test]
fn a_client_without_response_is_refused() {
    let desk = config("desk");
    let waiting = ServerHandshake::AwaitingResponse(hello("1.0"));
    let received = handshake(HandshakeMessage::Hello(hello("1.0")));
    match waiting.step(received, &desk, &"1.0".to_string()) {
        ServerStep::Refuse(message, refusal) => {
            assert_eq!(message, rejection("Expected Response message"));
            assert_eq!(refusal, Refusal::ExpectedResponse);
            assert_eq!(refusal.text(), "Expected Response message");
            assert!(!refusal.must_be_told());
        }
        other => panic!("not refused but {:?}", other),
    }
}

#[test]
fn a_client_gives_up_on_what_it_did_not_expect() {
    let fail = |mut state: ClientHandshake, payload: Payload| match state.step(payload) {
        ClientStep::Fail(error) => error,
        other => panic!("not failed but {:?}", other),
    };
    let error = fail(ClientHandshake::AwaitingChallenge, Payload::Heartbeat);
    assert!(matches!(error, ClientHandshakeError::ExpectedChallenge(Payload::Heartbeat)));
    assert_eq!(error.text("Heartbeat"), "Expected Challenge, got Heartbeat");

    let error = fail(ClientHandshake::AwaitingVerdict, Payload::Heartbeat);
    assert!(matches!(error, ClientHandshakeError::ExpectedVerdict(Payload::Heartbeat)));
    assert_eq!(error.text("Heartbeat"), "Expected Accept/Reject, got Heartbeat");

    let error = fail(ClientHandshake::AwaitingVerdict, rejection("no").payload);
    assert!(matches!(error, ClientHandshakeError::AuthenticationFailed(_)));
    assert_eq!(error.text(""), "Authentication failed: no");
}

#[test]
fn a_client_runs_without_a_clipboard() {
    let client = Client::new(config("laptop"), "desk:24900".to_string());
    for clipboard in [true, false] {
        let mut run = client.run();
        assert_eq!(run.advance(true), RunAction::ShakeHands);
        assert_eq!(run.advance(true), RunAction::OpenInput);
        assert_eq!(run.advance(true), RunAction::StartClipboard);
        assert_eq!(run.advance(clipboard), RunAction::Receive(clipboard));
        assert_eq!(run.advance(true), RunAction::Finish);
    }
}

#[test]
fn a_client_run_fails_of_what_failed_first() {
    let client = Client::new(config("laptop"), "desk:24900".to_string());
    let failures = [RunFailure::Connect, RunFailure::Handshake, RunFailure::InputManager];
    for (steps, failure) in failures.into_iter().enumerate() {
        let mut run = client.run();
        for _ in 0..steps {
            run.advance(true);
        }
        assert_eq!(run.advance(false), RunAction::Fail(failure));
    }
    assert_eq!(
        client.failure_text(RunFailure::Connect),
        Some("Failed to connect to desk:24900".to_string())
    );
    assert_eq!(client.failure_text(RunFailure::Handshake), None);
    assert_eq!(
        client.failure_text(RunFailure::InputManager),
        Some(
            "Failed to initialize input manager. Do you have permission to access /dev/uinput?"
                .to_string()
        )
    );
}

#[test]
fn a_server_keeps_accepting() {
    let server = Server::new(config("desk"), 24900);
    assert!(server.wants_discovery());
    assert_eq!(server.listen_address(), "0.0.0.0:24900");
    let mut run = server.run();
    assert_eq!(run.advance(true), ServerAction::CaptureAndStartClipboard);
    assert_eq!(run.advance(false), ServerAction::Bind(false));
    assert_eq!(run.advance(true), ServerAction::Accept);
    assert_eq!(run.advance(true), ServerAction::ServeAndAccept(false));
    assert_eq!(run.advance(false), ServerAction::Accept);
    assert_eq!(run.advance(true), ServerAction::ServeAndAccept(false));
}

#[test]
fn a_server_needs_devices_and_a_port() {
    let mut quiet = config("desk");
    quiet.enable_mdns = false;
    let server = Server::new(quiet, 0);
    assert!(!server.wants_discovery());
    assert_eq!(server.listen_address(), "0.0.0.0:0");
    let mut run = server.run();
    assert_eq!(run.advance(false), ServerAction::Fail(ServerFailure::Scan));
    assert_eq!(run.advance(true), ServerAction::Finish);
    let mut run = server.run();
    run.advance(true);
    assert_eq!(run.advance(true), ServerAction::Bind(true));
    assert_eq!(run.advance(false), ServerAction::Fail(ServerFailure::Bind));
    assert_eq!(bind_failure_text("0.0.0.0:0"), "Failed to bind to 0.0.0.0:0");
}

#[test]
fn the_mode_is_asked_for_or_the_default() {
    assert_eq!(choose_mode(true, true, Mode::Client), Mode::Server);
    assert_eq!(choose_mode(false, true, Mode::Server), Mode::Client);
    assert_eq!(choose_mode(false, false, Mode::Server), Mode::Server);
    assert_eq!(choose_mode(false, false, Mode::Client), Mode::Client);
}

#[test]
fn the_daemon_is_launched_as_asked() {
    let request = |server: bool, connect: Option<&str>| Request {
        server,
        client: !server,
        connect: connect.map(str::to_string),
        port: 24900,
    };
    let mut settings = config("laptop");
    assert_eq!(plan(request(true, Some("desk:1")), &settings), Ok(Launch::Server(24900)));
    assert_eq!(
        plan(request(false, Some("desk:1")), &settings),
        Ok(Launch::Client("desk:1".to_string()))
    );
    assert_eq!(plan(request(false, None), &settings), Err(NoServerAddress {}));
    assert_eq!(
        NoServerAddress {}.text(),
        "Client mode requires --connect address or default_server in config"
    );
    settings.default_server = Some("desk:2".to_string());
    assert_eq!(
        plan(request(false, None), &settings),
        Ok(Launch::Client("desk:2".to_string()))
    );
    assert_eq!(
        plan(request(false, Some("desk:1")), &settings),
        Ok(Launch::Client("desk:1".to_string()))
    );
}
