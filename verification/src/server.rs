//! The server: it captures local input and forwards it to its clients.
use crate::client::{client_goes_on, is_hello, is_response, ClientHandshake, ClientStep};
use crate::config::Config;
use crate::events::{ClipboardData, InputEvent};
use crate::message::{
    AcceptMessage, Capabilities, ChallengeMessage, HandshakeMessage, HelloMessage, Message, Payload,
    RejectMessage,
};
use crate::text::{concat, decimal, decimal_digits};
use vstd::prelude::*;

verus! {

/// How often a client gets a sign of life.
pub const HEARTBEAT_SECONDS: u64 = 30;

/// A server.
#[derive(Debug)]
pub struct Server {
    config: Config,
    port: u16,
}

impl Server {
    /// The configuration of the server.
    pub closed spec fn config(&self) -> Config {
        self.config
    }

    /// The port that the server listens on.
    pub closed spec fn port(&self) -> u16 {
        self.port
    }

    /// Creates a server.
    pub fn new(config: Config, port: u16) -> (r: Self)
        ensures
            r.config() == config,
            r.port() == port,
    {
        Server { config, port }
    }

    /// Whether the server announces itself on the local network.
    pub fn wants_discovery(&self) -> (r: bool)
        ensures
            r == self.config().enable_mdns,
    {
        self.config.enable_mdns
    }

    /// The address that the server listens on: its port, on every interface.
    pub fn listen_address(&self) -> (r: String)
        ensures
            r@ == listen_text(self.port()),
            r@.len() > 8,
            r@.take(8) == "0.0.0.0:"@,
            crate::text::decimal_value(r@.skip(8)) == self.port(),
    {
        let port = decimal(self.port as u64);
        let address = concat("0.0.0.0:", port.as_str());
        proof {
            reveal_strlit("0.0.0.0:");
            crate::text::law_decimal_reads_back(self.port as nat);
            assert(address@.take(8) =~= "0.0.0.0:"@);
            assert(address@.skip(8) =~= port@);
        }
        address
    }

    /// Starts a run of the server.
    pub fn run(&self) -> (r: ServerRun)
        ensures
            r.phase == ServerPhase::Scanning,
    {
        ServerRun { phase: ServerPhase::Scanning }
    }
}

/// The address with a port on every interface.
pub open spec fn listen_text(port: u16) -> Seq<char> {
    "0.0.0.0:"@ + decimal_digits(port as nat)
}

/// How far a run of the server has come.
#[derive(Debug, Clone, Copy, PartialEq, Eq, Structural)]
pub enum ServerPhase {
    Scanning,
    StartingClipboard,
    /// The listener is set up; the clipboard is shared if this is true.
    Binding(bool),
    /// Clients are accepted; the clipboard is shared if this is true.
    Accepting(bool),
    Over,
}

/// What a run of the server can fail of.
#[derive(Debug, Clone, Copy, PartialEq, Eq, Structural)]
pub enum ServerFailure {
    Scan,
    Bind,
}

/// What is to be done next in a run of the server.
#[derive(Debug, Clone, Copy, PartialEq, Eq, Structural)]
pub enum ServerAction {
    /// Look for input devices.
    ScanDevices,
    /// Capture from the devices in the background, and start the clipboard.
    CaptureAndStartClipboard,
    /// Pass changes of the clipboard on to the clients if this is true, and listen.
    Bind(bool),
    /// Wait for a client.
    Accept,
    /// Serve the client in the background, with the clipboard if this is true, and
    /// wait for the next one.
    ServeAndAccept(bool),
    /// Nothing more: the run is over.
    Finish,
    Fail(ServerFailure),
}

/// A run of the server.
#[derive(Debug, Clone, Copy, PartialEq, Eq, Structural)]
pub struct ServerRun {
    pub phase: ServerPhase,
}

/// How a run goes on, and what is to be done next, when the last action succeeded or
/// failed. A missing clipboard and a client that could not be accepted do not end
/// the run.
pub open spec fn run_goes_on(phase: ServerPhase, success: bool) -> (ServerPhase, ServerAction) {
    match (phase, success) {
        (ServerPhase::Scanning, true) => (
            ServerPhase::StartingClipboard,
            ServerAction::CaptureAndStartClipboard,
        ),
        (ServerPhase::Scanning, false) => (
            ServerPhase::Over,
            ServerAction::Fail(ServerFailure::Scan),
        ),
        (ServerPhase::StartingClipboard, clipboard) => (
            ServerPhase::Binding(clipboard),
            ServerAction::Bind(clipboard),
        ),
        (ServerPhase::Binding(clipboard), true) => (
            ServerPhase::Accepting(clipboard),
            ServerAction::Accept,
        ),
        (ServerPhase::Binding(_), false) => (
            ServerPhase::Over,
            ServerAction::Fail(ServerFailure::Bind),
        ),
        (ServerPhase::Accepting(clipboard), true) => (
            ServerPhase::Accepting(clipboard),
            ServerAction::ServeAndAccept(clipboard),
        ),
        (ServerPhase::Accepting(clipboard), false) => (
            ServerPhase::Accepting(clipboard),
            ServerAction::Accept,
        ),
        (ServerPhase::Over, _) => (ServerPhase::Over, ServerAction::Finish),
    }
}

/// The run after a number of actions, with what is to be done next.
pub open spec fn run_after(outcomes: Seq<bool>) -> (ServerPhase, ServerAction)
    decreases outcomes.len(),
{
    if outcomes.len() == 0 {
        (ServerPhase::Scanning, ServerAction::ScanDevices)
    } else {
        run_goes_on(run_after(outcomes.drop_last()).0, outcomes.last())
    }
}

/// Once a server listens it does not stop: whether or not there is a clipboard, and
/// however many clients could not be accepted, it serves each client that was, and
/// shares its clipboard with it if there is one.
pub proof fn law_server_keeps_accepting(clipboard: bool, accepted: Seq<bool>)
    ensures
        run_after(seq![true, clipboard, true] + accepted).0 == ServerPhase::Accepting(clipboard),
        run_after(seq![true, clipboard, true] + accepted).1 == (if accepted.len() > 0
            && accepted.last() {
            ServerAction::ServeAndAccept(clipboard)
        } else {
            ServerAction::Accept
        }),
    decreases accepted.len(),
{
    let start = seq![true, clipboard, true];
    if accepted.len() == 0 {
        let none = Seq::<bool>::empty();
        let one = seq![true];
        let two = seq![true, clipboard];
        assert(start + accepted =~= start);
        assert(one.drop_last() =~= none);
        assert(two.drop_last() =~= one);
        assert(start.drop_last() =~= two);
        assert(run_after(none) == (ServerPhase::Scanning, ServerAction::ScanDevices));
        assert(run_after(one) == run_goes_on(ServerPhase::Scanning, true));
        assert(run_after(two) == run_goes_on(run_after(one).0, clipboard));
        assert(run_after(start) == run_goes_on(run_after(two).0, true));
    } else {
        law_server_keeps_accepting(clipboard, accepted.drop_last());
        assert((start + accepted).drop_last() =~= start + accepted.drop_last());
        assert((start + accepted).last() == accepted.last());
    }
}

/// A server does not start without a directory of input devices, nor without the
/// port that it listens on.
pub proof fn law_server_start_failures(clipboard: bool)
    ensures
        run_after(seq![false]).1 == ServerAction::Fail(ServerFailure::Scan),
        run_after(seq![true, clipboard, false]).1 == ServerAction::Fail(ServerFailure::Bind),
{
    let none = Seq::<bool>::empty();
    let one = seq![true];
    let two = seq![true, clipboard];
    let three = seq![true, clipboard, false];
    assert(seq![false].drop_last() =~= none);
    assert(one.drop_last() =~= none);
    assert(two.drop_last() =~= one);
    assert(three.drop_last() =~= two);
    assert(run_after(none) == (ServerPhase::Scanning, ServerAction::ScanDevices));
    assert(run_after(seq![false]) == run_goes_on(ServerPhase::Scanning, false));
    assert(run_after(one) == run_goes_on(ServerPhase::Scanning, true));
    assert(run_after(two) == run_goes_on(run_after(one).0, clipboard));
    assert(run_after(three) == run_goes_on(run_after(two).0, false));
}

/// The words for a listener that could not be set up.
pub fn bind_failure_text(address: &str) -> (r: String)
    ensures
        r@ == "Failed to bind to "@ + address@,
{
    concat("Failed to bind to ", address)
}

impl ServerRun {
    /// Takes in whether the last action succeeded. The first action is to look for
    /// input devices.
    pub fn advance(&mut self, success: bool) -> (r: ServerAction)
        ensures
            (final(self).phase, r) == run_goes_on(old(self).phase, success),
    {
        let (phase, action) = match (self.phase, success) {
            (ServerPhase::Scanning, true) => (
                ServerPhase::StartingClipboard,
                ServerAction::CaptureAndStartClipboard,
            ),
            (ServerPhase::Scanning, false) => (
                ServerPhase::Over,
                ServerAction::Fail(ServerFailure::Scan),
            ),
            (ServerPhase::StartingClipboard, clipboard) => (
                ServerPhase::Binding(clipboard),
                ServerAction::Bind(clipboard),
            ),
            (ServerPhase::Binding(clipboard), true) => (
                ServerPhase::Accepting(clipboard),
                ServerAction::Accept,
            ),
            (ServerPhase::Accepting(clipboard), true) => (
                ServerPhase::Accepting(clipboard),
                ServerAction::ServeAndAccept(clipboard),
            ),
            (ServerPhase::Accepting(clipboard), false) => (
                ServerPhase::Accepting(clipboard),
                ServerAction::Accept,
            ),
            (ServerPhase::Binding(_), false) => (
                ServerPhase::Over,
                ServerAction::Fail(ServerFailure::Bind),
            ),
            (ServerPhase::Over, _) => (ServerPhase::Over, ServerAction::Finish),
        };
        self.phase = phase;
        action
    }
}

/// A lower-case hexadecimal digit.
pub open spec fn is_hex_digit(c: char) -> bool {
    '0' <= c <= '9' || 'a' <= c <= 'f'
}

/// The text of a random UUID: 32 lower-case hexadecimal digits in five groups, with
/// the digits that mark its version and its variant.
pub open spec fn is_random_uuid(s: Seq<char>) -> bool {
    &&& s.len() == 36
    &&& forall|i: int|
        0 <= i < 36 ==> if i == 8 || i == 13 || i == 18 || i == 23 {
            #[trigger] s[i] == '-'
        } else {
            is_hex_digit(s[i])
        }
    &&& s[14] == '4'
    &&& s[19] == '8' || s[19] == '9' || s[19] == 'a' || s[19] == 'b'
}

/// Calls `uuid::Uuid::new_v4`, and writes the UUID out. Whatever UUID is drawn, its
/// text has the form of one of version 4 and of the variant of RFC 9562. Which one
/// is drawn is left to chance.
#[verifier::external_body]
pub(crate) fn random_uuid() -> (r: String)
    ensures
        is_random_uuid(r@),
{
    uuid::Uuid::new_v4().to_string()
}

/// How far the server has come in the handshake.
#[derive(Debug)]
pub enum ServerHandshake {
    AwaitingHello,
    /// The client has introduced itself and was challenged.
    AwaitingResponse(HelloMessage),
}

/// Why a client is turned away.
#[derive(Debug, Clone, Copy, PartialEq, Eq, Structural)]
pub enum Refusal {
    ExpectedHello,
    VersionMismatch,
    ExpectedResponse,
}

impl Refusal {
    /// The refusal in words.
    pub open spec fn words(self) -> Seq<char> {
        match self {
            Refusal::ExpectedHello => "Expected Hello message"@,
            Refusal::VersionMismatch => "Protocol version mismatch"@,
            Refusal::ExpectedResponse => "Expected Response message"@,
        }
    }

    /// The refusal in words.
    pub fn text(&self) -> (r: String)
        ensures
            r@ == self.words(),
    {
        match self {
            Refusal::ExpectedHello => "Expected Hello message".to_owned(),
            Refusal::VersionMismatch => "Protocol version mismatch".to_owned(),
            Refusal::ExpectedResponse => "Expected Response message".to_owned(),
        }
    }

    /// Whether a failure to tell the client of the refusal is what the handshake
    /// fails of. It is for a wrong version; otherwise the refusal itself is.
    pub fn must_be_told(&self) -> (r: bool)
        ensures
            r == (*self == Refusal::VersionMismatch),
    {
        match self {
            Refusal::VersionMismatch => true,
            _ => false,
        }
    }
}

/// What the server does about a message of the handshake.
#[derive(Debug)]
pub enum ServerStep {
    /// Sends this, and goes on when the client has responded.
    Challenge(Message, ServerHandshake),
    /// Sends this, and ends the session.
    Refuse(Message, Refusal),
    /// Sends this, and begins the session of the client that said this hello.
    Accept(Message, HelloMessage),
}

/// The reason that a client is given.
pub open spec fn refusal_reason(
    refusal: Refusal,
    expected: Seq<char>,
    got: Seq<char>,
) -> Seq<char> {
    match refusal {
        Refusal::VersionMismatch => "Protocol version mismatch: expected "@ + expected + ", got "@
            + got,
        _ => refusal.words(),
    }
}

/// A rejection for a reason.
pub open spec fn is_reject(payload: Payload, reason: Seq<char>) -> bool {
    payload matches Payload::Handshake(HandshakeMessage::Reject(reject)) && reject.reason@ == reason
}

/// The challenge of a server.
pub open spec fn is_challenge(payload: Payload) -> bool {
    payload matches Payload::Handshake(HandshakeMessage::Challenge(challenge)) && {
        &&& challenge.nonce@ == seq![1u8, 2, 3, 4]
        &&& challenge.cert_fingerprint@ == "server-fingerprint"@
    }
}

/// The acceptance of a client into the session with a UUID.
pub open spec fn is_accept(payload: Payload, device_name: Seq<char>, uuid: Seq<char>) -> bool {
    payload matches Payload::Handshake(HandshakeMessage::Accept(accept)) && {
        &&& accept.device_name@ == device_name
        &&& accept.capabilities == (Capabilities {  })
        &&& accept.session_id@ == "session-"@ + uuid
    }
}

/// Whether `step` is what the server with this name and protocol version does about
/// `received`, if it draws `uuid` for the session.
pub open spec fn server_goes_on(
    before: ServerHandshake,
    received: Payload,
    device_name: Seq<char>,
    version: Seq<char>,
    uuid: Seq<char>,
    step: ServerStep,
) -> bool {
    match (before, received) {
        (
            ServerHandshake::AwaitingHello,
            Payload::Handshake(HandshakeMessage::Hello(hello)),
        ) => if hello.protocol_version@ == version {
            step matches ServerStep::Challenge(reply, next) && is_challenge(reply.payload) && next
                == ServerHandshake::AwaitingResponse(hello)
        } else {
            step matches ServerStep::Refuse(reply, refusal) && refusal == Refusal::VersionMismatch
                && is_reject(
                reply.payload,
                refusal_reason(refusal, version, hello.protocol_version@),
            )
        },
        (
            ServerHandshake::AwaitingResponse(hello),
            Payload::Handshake(HandshakeMessage::Response(_)),
        ) => step matches ServerStep::Accept(reply, client) && is_accept(
            reply.payload,
            device_name,
            uuid,
        ) && client == hello,
        (ServerHandshake::AwaitingHello, _) => step matches ServerStep::Refuse(reply, refusal)
            && refusal == Refusal::ExpectedHello && is_reject(reply.payload, refusal.words()),
        (ServerHandshake::AwaitingResponse(_), _) => step matches ServerStep::Refuse(reply, refusal)
            && refusal == Refusal::ExpectedResponse && is_reject(reply.payload, refusal.words()),
    }
}

fn reject(reason: String) -> (r: Message)
    ensures
        is_reject(r.payload, reason@),
{
    Message::new(Payload::Handshake(HandshakeMessage::Reject(RejectMessage { reason })))
}

impl ServerHandshake {
    /// Begins a handshake.
    pub fn new() -> (r: Self)
        ensures
            r == ServerHandshake::AwaitingHello,
    {
        ServerHandshake::AwaitingHello
    }

    /// Takes in a message of the client. A client that is let in gets a session with a
    /// UUID that is drawn for it.
    pub fn step(self, received: Payload, config: &Config, protocol_version: &String) -> (r:
        ServerStep)
        ensures
            exists|uuid: Seq<char>|
                (r is Accept ==> is_random_uuid(uuid)) && #[trigger] server_goes_on(
                    self,
                    received,
                    config.device_name@,
                    protocol_version@,
                    uuid,
                    r,
                ),
    {
        let responded = match (&self, &received) {
            (
                ServerHandshake::AwaitingResponse(_),
                Payload::Handshake(HandshakeMessage::Response(_)),
            ) => true,
            _ => false,
        };
        let uuid = if responded {
            random_uuid()
        } else {
            String::new()
        };
        self.step_with(received, config, protocol_version, uuid.as_str())
    }

    /// Takes in a message of the client, with the UUID for its session.
    pub fn step_with(
        self,
        received: Payload,
        config: &Config,
        protocol_version: &String,
        uuid: &str,
    ) -> (r: ServerStep)
        ensures
            server_goes_on(
                self,
                received,
                config.device_name@,
                protocol_version@,
                uuid@,
                r,
            ),
    {
        match self {
            ServerHandshake::AwaitingHello => match received {
                Payload::Handshake(HandshakeMessage::Hello(hello)) => {
                    if hello.protocol_version != *protocol_version {
                        let head = concat(
                            "Protocol version mismatch: expected ",
                            protocol_version.as_str(),
                        );
                        let reason = concat(
                            concat(head.as_str(), ", got ").as_str(),
                            hello.protocol_version.as_str(),
                        );
                        return ServerStep::Refuse(reject(reason), Refusal::VersionMismatch);
                    }
                    let challenge = Message::new(
                        Payload::Handshake(
                            HandshakeMessage::Challenge(
                                ChallengeMessage {
                                    nonce: vec![1u8, 2, 3, 4],
                                    cert_fingerprint: "server-fingerprint".to_owned(),
                                },
                            ),
                        ),
                    );
                    ServerStep::Challenge(challenge, ServerHandshake::AwaitingResponse(hello))
                },
                _ => ServerStep::Refuse(
                    reject("Expected Hello message".to_owned()),
                    Refusal::ExpectedHello,
                ),
            },
            ServerHandshake::AwaitingResponse(hello) => match received {
                Payload::Handshake(HandshakeMessage::Response(_)) => {
                    let accept = Message::new(
                        Payload::Handshake(
                            HandshakeMessage::Accept(
                                AcceptMessage {
                                    device_name: config.device_name.clone(),
                                    capabilities: Capabilities::default(),
                                    session_id: concat("session-", uuid),
                                },
                            ),
                        ),
                    );
                    ServerStep::Accept(accept, hello)
                },
                _ => ServerStep::Refuse(
                    reject("Expected Response message".to_owned()),
                    Refusal::ExpectedResponse,
                ),
            },
        }
    }
}

/// What happens while a client is served.
#[derive(Debug)]
pub enum ServerEvent {
    /// A local input event was captured.
    Input(InputEvent),
    /// So many input events came too fast to be sent.
    InputLagged(u64),
    /// No more input is captured.
    InputClosed,
    /// The local clipboard has changed.
    Clipboard(ClipboardData),
    /// Changes of the clipboard came too fast to be sent.
    ClipboardLagged,
    /// The clipboard is no longer watched.
    ClipboardClosed,
    /// A message of the client has arrived.
    Received(Payload),
    /// No message has arrived yet.
    NothingReceived,
    /// Nothing can be received any more.
    ReceiveFailed,
    /// It is time for a sign of life.
    HeartbeatDue,
    /// What was forwarded could not be sent.
    SendFailed,
}

/// What the server does about it.
#[derive(Debug)]
pub enum ServerTask {
    /// Sends a message. A failure comes back as `SendFailed`.
    Forward(Message),
    /// Sets the local clipboard. A failure does not matter.
    SetClipboard(ClipboardData),
    /// Waits for what happens next.
    Wait,
    /// Ends the session.
    Stop,
}

/// The session of a client, on the server.
#[derive(Debug, Clone, Copy, PartialEq, Eq, Structural)]
pub struct ServerSession {
    /// The input events that were forwarded.
    pub event_count: u64,
    /// Whether the local clipboard can be set.
    pub clipboard: bool,
}

/// What the server does about an event.
pub open spec fn server_task(session: ServerSession, event: ServerEvent) -> ServerTask {
    match event {
        ServerEvent::Input(input) => ServerTask::Forward(
            Message { payload: Payload::Input(input) },
        ),
        ServerEvent::InputClosed => ServerTask::Stop,
        ServerEvent::Clipboard(data) => ServerTask::Forward(
            Message { payload: Payload::Clipboard(data) },
        ),
        ServerEvent::Received(Payload::Clipboard(data)) => if session.clipboard {
            ServerTask::SetClipboard(data)
        } else {
            ServerTask::Wait
        },
        ServerEvent::ReceiveFailed => ServerTask::Stop,
        ServerEvent::HeartbeatDue => ServerTask::Forward(Message { payload: Payload::Heartbeat }),
        ServerEvent::SendFailed => ServerTask::Stop,
        ServerEvent::InputLagged(_)
        | ServerEvent::ClipboardLagged
        | ServerEvent::ClipboardClosed
        | ServerEvent::Received(_)
        | ServerEvent::NothingReceived => ServerTask::Wait,
    }
}

/// The session after an event: only the input events are counted.
pub open spec fn server_after(session: ServerSession, event: ServerEvent) -> ServerSession {
    match event {
        ServerEvent::Input(_) => ServerSession {
            event_count: (session.event_count + 1) as u64,
            ..session
        },
        _ => session,
    }
}

impl ServerSession {
    /// Begins a session.
    pub fn new(clipboard: bool) -> (r: Self)
        ensures
            r == (ServerSession { event_count: 0, clipboard }),
    {
        ServerSession { event_count: 0, clipboard }
    }

    /// Decides what to do about what happened.
    pub fn step(&mut self, event: ServerEvent) -> (r: ServerTask)
        requires
            event is Input ==> old(self).event_count < u64::MAX,
        ensures
            r == server_task(*old(self), event),
            *final(self) == server_after(*old(self), event),
    {
        match event {
            ServerEvent::Input(input) => {
                self.event_count = self.event_count + 1;
                ServerTask::Forward(Message::new(Payload::Input(input)))
            },
            ServerEvent::InputLagged(_) => ServerTask::Wait,
            ServerEvent::InputClosed => ServerTask::Stop,
            ServerEvent::Clipboard(data) => ServerTask::Forward(
                Message::new(Payload::Clipboard(data)),
            ),
            ServerEvent::ClipboardLagged => ServerTask::Wait,
            ServerEvent::ClipboardClosed => ServerTask::Wait,
            ServerEvent::Received(payload) => match payload {
                Payload::Clipboard(data) => {
                    if self.clipboard {
                        ServerTask::SetClipboard(data)
                    } else {
                        ServerTask::Wait
                    }
                },
                _ => ServerTask::Wait,
            },
            ServerEvent::NothingReceived => ServerTask::Wait,
            ServerEvent::ReceiveFailed => ServerTask::Stop,
            ServerEvent::HeartbeatDue => ServerTask::Forward(Message::new(Payload::Heartbeat)),
            ServerEvent::SendFailed => ServerTask::Stop,
        }
    }
}

/// The session after a number of events.
pub open spec fn server_after_all(session: ServerSession, events: Seq<ServerEvent>) -> ServerSession
    decreases events.len(),
{
    if events.len() == 0 {
        session
    } else {
        server_after(server_after_all(session, events.drop_last()), events.last())
    }
}

/// How many of the events are input events.
pub open spec fn inputs_among(events: Seq<ServerEvent>) -> nat {
    events.filter(|e: ServerEvent| e is Input).len()
}

/// A server counts the input events that it forwards, and nothing else.
pub proof fn law_server_counts_inputs(session: ServerSession, events: Seq<ServerEvent>)
    requires
        session.event_count + inputs_among(events) <= u64::MAX,
    ensures
        server_after_all(session, events).event_count == session.event_count + inputs_among(
            events,
        ),
        server_after_all(session, events).clipboard == session.clipboard,
    decreases events.len(),
{
    reveal(Seq::filter);
    if events.len() > 0 {
        law_server_counts_inputs(session, events.drop_last());
    }
}

/// Machines of one protocol version come together: the hello of a client is
/// challenged, the client answers with the nonce of the challenge, and it is let in.
/// The server then serves the client that introduced itself, and the client holds
/// the name of the server and the session that was drawn for it.
pub proof fn law_same_version_is_accepted(
    hello: Payload,
    client: Config,
    device_name: Seq<char>,
    version: Seq<char>,
    uuids: (Seq<char>, Seq<char>),
    challenged: ServerStep,
    answered: ClientStep,
    waiting: ClientHandshake,
    accepted: ServerStep,
    concluded: ClientStep,
    end: ClientHandshake,
)
    requires
        is_hello(hello, version, client),
        server_goes_on(
            ServerHandshake::AwaitingHello,
            hello,
            device_name,
            version,
            uuids.0,
            challenged,
        ),
        client_goes_on(
            ClientHandshake::AwaitingChallenge,
            challenged->Challenge_0.payload,
            waiting,
            answered,
        ),
        server_goes_on(
            challenged->Challenge_1,
            answered->Answer_0.payload,
            device_name,
            version,
            uuids.1,
            accepted,
        ),
        client_goes_on(waiting, accepted->Accept_0.payload, end, concluded),
    ensures
        challenged is Challenge,
        answered is Answer,
        is_response(answered->Answer_0.payload, seq![1u8, 2, 3, 4]),
        accepted is Accept,
        accepted->Accept_1.device_name@ == client.device_name@,
        accepted->Accept_1.device_id@ == client.device_id@,
        concluded is Done,
        concluded->Done_0.device_name@ == device_name,
        concluded->Done_0.session_id@ == "session-"@ + uuids.1,
{
}

/// A client of another protocol version is turned away, and learns which version was
/// expected and which it has.
pub proof fn law_other_version_is_refused(
    hello: Payload,
    client: Config,
    device_name: Seq<char>,
    version: Seq<char>,
    other: Seq<char>,
    uuid: Seq<char>,
    refused: ServerStep,
    failed: ClientStep,
    end: ClientHandshake,
)
    requires
        other != version,
        is_hello(hello, other, client),
        server_goes_on(
            ServerHandshake::AwaitingHello,
            hello,
            device_name,
            version,
            uuid,
            refused,
        ),
        client_goes_on(
            ClientHandshake::AwaitingChallenge,
            refused->Refuse_0.payload,
            end,
            failed,
        ),
    ensures
        refused is Refuse,
        refused->Refuse_1 == Refusal::VersionMismatch,
        failed matches ClientStep::Fail(crate::client::ClientHandshakeError::Rejected(reason))
            && reason@ == "Protocol version mismatch: expected "@ + version + ", got "@ + other,
{
}

/// A server that turns a client away tells it why: whatever the server was sent, its
/// refusal is a rejection, which ends the handshake of a client in any state with
/// the reason of the server.
pub proof fn law_refusal_is_told(
    before: ServerHandshake,
    received: Payload,
    device_name: Seq<char>,
    version: Seq<char>,
    uuid: Seq<char>,
    refused: ServerStep,
    waiting: ClientHandshake,
    end: ClientHandshake,
    failed: ClientStep,
)
    requires
        server_goes_on(before, received, device_name, version, uuid, refused),
        refused is Refuse,
        client_goes_on(waiting, refused->Refuse_0.payload, end, failed),
    ensures
        ({
            let reason = refusal_reason(
                refused->Refuse_1,
                version,
                received->Handshake_0->Hello_0.protocol_version@,
            );
            match waiting {
                ClientHandshake::AwaitingChallenge => failed matches ClientStep::Fail(
                    crate::client::ClientHandshakeError::Rejected(told),
                ) && told@ == reason,
                ClientHandshake::AwaitingVerdict => failed matches ClientStep::Fail(
                    crate::client::ClientHandshakeError::AuthenticationFailed(told),
                ) && told@ == reason,
            }
        }),
{
}

/// A handshake has its order: a client is challenged only after a hello in the version
/// of the server, and is let in only by the response to a challenge.
pub proof fn law_handshake_order(
    before: ServerHandshake,
    received: Payload,
    device_name: Seq<char>,
    version: Seq<char>,
    uuid: Seq<char>,
    step: ServerStep,
)
    requires
        server_goes_on(before, received, device_name, version, uuid, step),
    ensures
        step is Accept ==> before is AwaitingResponse && (received matches Payload::Handshake(
            HandshakeMessage::Response(_),
        )),
        step is Challenge ==> before is AwaitingHello && (received matches Payload::Handshake(
            HandshakeMessage::Hello(hello),
        ) && hello.protocol_version@ == version && step->Challenge_1
            == ServerHandshake::AwaitingResponse(hello)),
{
}

/// A server listens on its own port, on every interface, and different ports are different
/// addresses.
pub proof fn law_listen_address(port: u16, other: u16)
    ensures
        listen_text(port).len() > 8,
        listen_text(port).take(8) == "0.0.0.0:"@,
        crate::text::decimal_value(listen_text(port).skip(8)) == port,
        listen_text(port) == listen_text(other) ==> port == other,
{
    reveal_strlit("0.0.0.0:");
    crate::text::law_decimal_reads_back(port as nat);
    crate::text::law_decimal_reads_back(other as nat);
    assert(listen_text(port).take(8) =~= "0.0.0.0:"@);
    assert(listen_text(port).skip(8) =~= decimal_digits(port as nat));
    assert(listen_text(other).skip(8) =~= decimal_digits(other as nat));
}

/// A client is challenged exactly if its first message is a hello in the version of the server,
/// letter for letter; and what the server keeps of it is that hello.
pub proof fn law_server_challenges_its_version(
    received: Payload,
    device_name: Seq<char>,
    version: Seq<char>,
    uuid: Seq<char>,
    step: ServerStep,
)
    requires
        server_goes_on(
            ServerHandshake::AwaitingHello,
            received,
            device_name,
            version,
            uuid,
            step,
        ),
    ensures
        step is Challenge <==> (received matches Payload::Handshake(HandshakeMessage::Hello(hello))
            && hello.protocol_version@ == version),
        !(step is Accept),
        step matches ServerStep::Challenge(message, next) ==> {
            &&& message.payload matches Payload::Handshake(HandshakeMessage::Challenge(challenge))
                && challenge.nonce@ == seq![1u8, 2, 3, 4] && challenge.cert_fingerprint@
                == "server-fingerprint"@
            &&& next matches ServerHandshake::AwaitingResponse(kept) && received
                == Payload::Handshake(HandshakeMessage::Hello(kept))
        },
        step matches ServerStep::Refuse(message, refusal) ==> {
            &&& message.payload matches Payload::Handshake(HandshakeMessage::Reject(reject)) && {
                &&& received matches Payload::Handshake(HandshakeMessage::Hello(hello)) ==> {
                    &&& refusal == Refusal::VersionMismatch
                    &&& reject.reason@ == "Protocol version mismatch: expected "@ + version
                        + ", got "@ + hello.protocol_version@
                }
                &&& !(received matches Payload::Handshake(HandshakeMessage::Hello(_))) ==> {
                    &&& refusal == Refusal::ExpectedHello
                    &&& reject.reason@ == "Expected Hello message"@
                }
            }
        },
{
}

/// A client that was challenged is let in exactly by a response, whatever it holds: under the
/// name of the server and into the session that was drawn for it. It is served as the client
/// that said hello. Anything else turns it away.
pub proof fn law_server_accepts_the_response(
    hello: HelloMessage,
    received: Payload,
    device_name: Seq<char>,
    version: Seq<char>,
    uuid: Seq<char>,
    step: ServerStep,
)
    requires
        server_goes_on(
            ServerHandshake::AwaitingResponse(hello),
            received,
            device_name,
            version,
            uuid,
            step,
        ),
    ensures
        step is Accept <==> (received matches Payload::Handshake(HandshakeMessage::Response(_))),
        !(step is Challenge),
        step matches ServerStep::Accept(message, client) ==> {
            &&& client == hello
            &&& message.payload matches Payload::Handshake(HandshakeMessage::Accept(accept)) && {
                &&& accept.device_name@ == device_name
                &&& accept.session_id@ == "session-"@ + uuid
            }
        },
        step matches ServerStep::Refuse(message, refusal) ==> {
            &&& refusal == Refusal::ExpectedResponse
            &&& message.payload matches Payload::Handshake(HandshakeMessage::Reject(reject))
                && reject.reason@ == "Expected Response message"@
        },
{
}

/// Different clients get different sessions: sessions that are named alike were drawn alike.
pub proof fn law_sessions_are_told_apart(
    first: Payload,
    second: Payload,
    names: (Seq<char>, Seq<char>),
    uuids: (Seq<char>, Seq<char>),
)
    requires
        is_accept(first, names.0, uuids.0),
        is_accept(second, names.1, uuids.1),
        first->Handshake_0->Accept_0.session_id@ == second->Handshake_0->Accept_0.session_id@,
    ensures
        uuids.0 == uuids.1,
{
    let head = "session-"@;
    assert((head + uuids.0).skip(head.len() as int) =~= uuids.0);
    assert((head + uuids.1).skip(head.len() as int) =~= uuids.1);
}

/// A run of a server that has failed is over, whatever comes after it; nothing else ends it.
pub proof fn law_server_run_ends(phase: ServerPhase, success: bool, later: bool)
    ensures
        run_goes_on(phase, success).1 is Fail ==> run_goes_on(
            run_goes_on(phase, success).0,
            later,
        ).1 is Finish,
        run_goes_on(phase, success).1 is Finish ==> phase is Over,
        run_goes_on(phase, success).1 is Fail <==> !success && (phase is Scanning
            || phase is Binding),
{
}

/// A server starts in order: it looks for devices, captures from them and starts its clipboard,
/// listens, and then accepts; whether there is a clipboard changes nothing of that.
pub proof fn law_server_start_order(clipboard: bool)
    ensures
        run_goes_on(ServerPhase::Scanning, true) == (
            ServerPhase::StartingClipboard,
            ServerAction::CaptureAndStartClipboard,
        ),
        run_goes_on(ServerPhase::StartingClipboard, clipboard) == (
            ServerPhase::Binding(clipboard),
            ServerAction::Bind(clipboard),
        ),
        run_goes_on(ServerPhase::Binding(clipboard), true) == (
            ServerPhase::Accepting(clipboard),
            ServerAction::Accept,
        ),
{
}

/// A refusal is told in its own words.
pub proof fn law_refusals_in_words()
    ensures
        Refusal::ExpectedHello.words() == "Expected Hello message"@,
        Refusal::VersionMismatch.words() == "Protocol version mismatch"@,
        Refusal::ExpectedResponse.words() == "Expected Response message"@,
{
}

} // verus!
