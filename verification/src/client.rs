//! The client: it connects to a server, receives input events and injects them.
use crate::config::Config;
use crate::events::{ClipboardData, ControlMessage, InputEvent};
use crate::message::{
    AcceptMessage, Capabilities, HandshakeMessage, HelloMessage, Message, Payload, ResponseMessage,
};
use crate::text::concat;
use vstd::prelude::*;

verus! {

/// A client of a server.
#[derive(Debug)]
pub struct Client {
    config: Config,
    server_addr: String,
}

impl Client {
    /// The configuration of the client.
    pub closed spec fn config(&self) -> Config {
        self.config
    }

    /// The address of the server.
    pub closed spec fn server_addr(&self) -> String {
        self.server_addr
    }

    /// Creates a client of the server at `server_addr`.
    pub fn new(config: Config, server_addr: String) -> (r: Self)
        ensures
            r.config() == config,
            r.server_addr() == server_addr,
    {
        Client { config, server_addr }
    }

    /// The first message of the handshake, in which the client introduces itself.
    pub fn hello(&self, protocol_version: &str) -> (r: Message)
        ensures
            is_hello(r.payload, protocol_version@, self.config()),
            r.payload matches Payload::Handshake(HandshakeMessage::Hello(hello)) && {
                &&& hello.protocol_version@ == protocol_version@
                &&& hello.device_name@ == self.config().device_name@
                &&& hello.device_id@ == self.config().device_id@
            },
    {
        Message::new(
            Payload::Handshake(
                HandshakeMessage::Hello(
                    HelloMessage {
                        protocol_version: protocol_version.to_owned(),
                        device_name: self.config.device_name.clone(),
                        device_id: self.config.device_id.clone(),
                        capabilities: Capabilities::default(),
                    },
                ),
            ),
        )
    }

    /// Starts a run of the client.
    pub fn run(&self) -> (r: ClientRun)
        ensures
            r.phase == RunPhase::Connecting,
    {
        ClientRun { phase: RunPhase::Connecting }
    }

    /// The address of the server.
    pub fn server_address(&self) -> (r: &str)
        ensures
            r@ == self.server_addr()@,
    {
        self.server_addr.as_str()
    }

    /// What went wrong in a run, in words, where that does not go without saying.
    pub fn failure_text(&self, failure: RunFailure) -> (r: Option<String>)
        ensures
            match failure {
                RunFailure::Connect => r matches Some(text) && text@ == "Failed to connect to "@
                    + self.server_addr()@,
                RunFailure::Handshake => r is None,
                RunFailure::InputManager => r matches Some(text) && text@
                    == "Failed to initialize input manager. Do you have permission to access /dev/uinput?"@,
            },
    {
        match failure {
            RunFailure::Connect => Some(
                concat("Failed to connect to ", self.server_addr.as_str()),
            ),
            RunFailure::Handshake => None,
            RunFailure::InputManager => Some(
                "Failed to initialize input manager. Do you have permission to access /dev/uinput?".to_owned(),
            ),
        }
    }
}

/// A hello of the machine with this configuration.
pub open spec fn is_hello(payload: Payload, protocol_version: Seq<char>, config: Config) -> bool {
    payload matches Payload::Handshake(HandshakeMessage::Hello(hello)) && {
        &&& hello.protocol_version@ == protocol_version
        &&& hello.device_name@ == config.device_name@
        &&& hello.device_id@ == config.device_id@
        &&& hello.capabilities == (Capabilities {  })
    }
}

/// How far the client has come in the handshake, after it has said hello.
#[derive(Debug, Clone, Copy, PartialEq, Eq, Structural)]
pub enum ClientHandshake {
    AwaitingChallenge,
    AwaitingVerdict,
}

/// Why the handshake failed for the client.
#[derive(Debug)]
pub enum ClientHandshakeError {
    /// The server turned the client away, for this reason.
    Rejected(String),
    /// The server sent this in place of a challenge.
    ExpectedChallenge(Payload),
    /// The server did not take the answer to its challenge, for this reason.
    AuthenticationFailed(String),
    /// The server sent this in place of a verdict.
    ExpectedVerdict(Payload),
}

impl ClientHandshakeError {
    /// The error in words. `shown` is how the payload is displayed, where the error
    /// holds one.
    pub fn text(&self, shown: &str) -> (r: String)
        ensures
            r@ == (match *self {
                ClientHandshakeError::Rejected(reason) => "Server rejected connection: "@ + reason@,
                ClientHandshakeError::ExpectedChallenge(_) => "Expected Challenge, got "@ + shown@,
                ClientHandshakeError::AuthenticationFailed(reason) => "Authentication failed: "@
                    + reason@,
                ClientHandshakeError::ExpectedVerdict(_) => "Expected Accept/Reject, got "@
                    + shown@,
            }),
    {
        match self {
            ClientHandshakeError::Rejected(reason) => concat(
                "Server rejected connection: ",
                reason.as_str(),
            ),
            ClientHandshakeError::ExpectedChallenge(_) => concat("Expected Challenge, got ", shown),
            ClientHandshakeError::AuthenticationFailed(reason) => concat(
                "Authentication failed: ",
                reason.as_str(),
            ),
            ClientHandshakeError::ExpectedVerdict(_) => concat(
                "Expected Accept/Reject, got ",
                shown,
            ),
        }
    }
}

/// What the client does about a message of the handshake.
#[derive(Debug)]
pub enum ClientStep {
    /// Sends this, and waits for the verdict.
    Answer(Message),
    /// Is let in.
    Done(AcceptMessage),
    Fail(ClientHandshakeError),
}

/// A response that echoes a nonce.
pub open spec fn is_response(payload: Payload, nonce: Seq<u8>) -> bool {
    payload matches Payload::Handshake(HandshakeMessage::Response(response)) && {
        &&& response.signature@ == nonce
        &&& response.cert_fingerprint@ == "client-fingerprint"@
    }
}

/// Whether `step` is what the client does about `received`, and `after` how far it
/// has come then.
pub open spec fn client_goes_on(
    before: ClientHandshake,
    received: Payload,
    after: ClientHandshake,
    step: ClientStep,
) -> bool {
    match (before, received) {
        (
            ClientHandshake::AwaitingChallenge,
            Payload::Handshake(HandshakeMessage::Challenge(challenge)),
        ) => {
            &&& step matches ClientStep::Answer(answer) && is_response(
                answer.payload,
                challenge.nonce@,
            )
            &&& after == ClientHandshake::AwaitingVerdict
        },
        (
            ClientHandshake::AwaitingChallenge,
            Payload::Handshake(HandshakeMessage::Reject(reject)),
        ) => step == ClientStep::Fail(ClientHandshakeError::Rejected(reject.reason)) && after
            == before,
        (ClientHandshake::AwaitingChallenge, _) => step == ClientStep::Fail(
            ClientHandshakeError::ExpectedChallenge(received),
        ) && after == before,
        (
            ClientHandshake::AwaitingVerdict,
            Payload::Handshake(HandshakeMessage::Accept(accept)),
        ) => step == ClientStep::Done(accept) && after == before,
        (
            ClientHandshake::AwaitingVerdict,
            Payload::Handshake(HandshakeMessage::Reject(reject)),
        ) => step == ClientStep::Fail(ClientHandshakeError::AuthenticationFailed(reject.reason))
            && after == before,
        (ClientHandshake::AwaitingVerdict, _) => step == ClientStep::Fail(
            ClientHandshakeError::ExpectedVerdict(received),
        ) && after == before,
    }
}

impl ClientHandshake {
    /// Takes in a message of the server.
    pub fn step(&mut self, received: Payload) -> (r: ClientStep)
        ensures
            client_goes_on(*old(self), received, *final(self), r),
    {
        match *self {
            ClientHandshake::AwaitingChallenge => match received {
                Payload::Handshake(HandshakeMessage::Challenge(challenge)) => {
                    *self = ClientHandshake::AwaitingVerdict;
                    ClientStep::Answer(
                        Message::new(
                            Payload::Handshake(
                                HandshakeMessage::Response(
                                    ResponseMessage {
                                        signature: challenge.nonce,
                                        cert_fingerprint: "client-fingerprint".to_owned(),
                                    },
                                ),
                            ),
                        ),
                    )
                },
                Payload::Handshake(HandshakeMessage::Reject(reject)) => ClientStep::Fail(
                    ClientHandshakeError::Rejected(reject.reason),
                ),
                other => ClientStep::Fail(ClientHandshakeError::ExpectedChallenge(other)),
            },
            ClientHandshake::AwaitingVerdict => match received {
                Payload::Handshake(HandshakeMessage::Accept(accept)) => ClientStep::Done(accept),
                Payload::Handshake(HandshakeMessage::Reject(reject)) => ClientStep::Fail(
                    ClientHandshakeError::AuthenticationFailed(reject.reason),
                ),
                other => ClientStep::Fail(ClientHandshakeError::ExpectedVerdict(other)),
            },
        }
    }
}

/// How far a run of the client has come.
#[derive(Debug, Clone, Copy, PartialEq, Eq, Structural)]
pub enum RunPhase {
    Connecting,
    ShakingHands,
    OpeningInput,
    StartingClipboard,
    /// Events are received; the clipboard is shared if this is true.
    Receiving(bool),
    Over,
}

/// What a run of the client can fail of.
#[derive(Debug, Clone, Copy, PartialEq, Eq, Structural)]
pub enum RunFailure {
    Connect,
    Handshake,
    InputManager,
}

/// What is to be done next in a run of the client.
#[derive(Debug, Clone, Copy, PartialEq, Eq, Structural)]
pub enum RunAction {
    Connect,
    ShakeHands,
    OpenInput,
    StartClipboard,
    /// Receive events until the session is over, with or without the clipboard.
    Receive(bool),
    Finish,
    Fail(RunFailure),
}

/// A run of the client.
#[derive(Debug, Clone, Copy, PartialEq, Eq, Structural)]
pub struct ClientRun {
    pub phase: RunPhase,
}

/// How a run goes on, and what is to be done next, when the last action succeeded
/// or failed. Only a missing clipboard does not end the run.
pub open spec fn run_goes_on(phase: RunPhase, success: bool) -> (RunPhase, RunAction) {
    match (phase, success) {
        (RunPhase::Connecting, true) => (RunPhase::ShakingHands, RunAction::ShakeHands),
        (RunPhase::Connecting, false) => (RunPhase::Over, RunAction::Fail(RunFailure::Connect)),
        (RunPhase::ShakingHands, true) => (RunPhase::OpeningInput, RunAction::OpenInput),
        (RunPhase::ShakingHands, false) => (RunPhase::Over, RunAction::Fail(RunFailure::Handshake)),
        (RunPhase::OpeningInput, true) => (RunPhase::StartingClipboard, RunAction::StartClipboard),
        (RunPhase::OpeningInput, false) => (
            RunPhase::Over,
            RunAction::Fail(RunFailure::InputManager),
        ),
        (RunPhase::StartingClipboard, clipboard) => (
            RunPhase::Receiving(clipboard),
            RunAction::Receive(clipboard),
        ),
        (RunPhase::Receiving(_), _) => (RunPhase::Over, RunAction::Finish),
        (RunPhase::Over, _) => (RunPhase::Over, RunAction::Finish),
    }
}

impl ClientRun {
    /// Takes in whether the last action succeeded. The first action is to connect.
    pub fn advance(&mut self, success: bool) -> (r: RunAction)
        ensures
            (final(self).phase, r) == run_goes_on(old(self).phase, success),
    {
        let (phase, action) = match (self.phase, success) {
            (RunPhase::Connecting, true) => (RunPhase::ShakingHands, RunAction::ShakeHands),
            (RunPhase::Connecting, false) => (
                RunPhase::Over,
                RunAction::Fail(RunFailure::Connect),
            ),
            (RunPhase::ShakingHands, true) => (RunPhase::OpeningInput, RunAction::OpenInput),
            (RunPhase::ShakingHands, false) => (
                RunPhase::Over,
                RunAction::Fail(RunFailure::Handshake),
            ),
            (RunPhase::OpeningInput, true) => (
                RunPhase::StartingClipboard,
                RunAction::StartClipboard,
            ),
            (RunPhase::OpeningInput, false) => (
                RunPhase::Over,
                RunAction::Fail(RunFailure::InputManager),
            ),
            (RunPhase::StartingClipboard, clipboard) => (
                RunPhase::Receiving(clipboard),
                RunAction::Receive(clipboard),
            ),
            (RunPhase::Receiving(_), _) => (RunPhase::Over, RunAction::Finish),
            (RunPhase::Over, _) => (RunPhase::Over, RunAction::Finish),
        };
        self.phase = phase;
        action
    }
}

/// The run after a number of actions, with what is to be done next.
pub open spec fn run_after(outcomes: Seq<bool>) -> (RunPhase, RunAction)
    decreases outcomes.len(),
{
    if outcomes.len() == 0 {
        (RunPhase::Connecting, RunAction::Connect)
    } else {
        run_goes_on(run_after(outcomes.drop_last()).0, outcomes.last())
    }
}

/// A client receives events once it is connected, has shaken hands and can inject
/// input, whether or not it has a clipboard. Whatever fails first of the three is
/// what the run fails of.
pub proof fn law_client_run(connected: bool, shaken: bool, opened: bool, clipboard: bool)
    ensures
        run_after(seq![connected]).1 == (if connected {
            RunAction::ShakeHands
        } else {
            RunAction::Fail(RunFailure::Connect)
        }),
        connected ==> run_after(seq![connected, shaken]).1 == (if shaken {
            RunAction::OpenInput
        } else {
            RunAction::Fail(RunFailure::Handshake)
        }),
        connected && shaken ==> run_after(seq![connected, shaken, opened]).1 == (if opened {
            RunAction::StartClipboard
        } else {
            RunAction::Fail(RunFailure::InputManager)
        }),
        connected && shaken && opened ==> run_after(
            seq![connected, shaken, opened, clipboard],
        ).1 == RunAction::Receive(clipboard),
{
    let none = Seq::<bool>::empty();
    let one = seq![connected];
    let two = seq![connected, shaken];
    let three = seq![connected, shaken, opened];
    let four = seq![connected, shaken, opened, clipboard];
    assert(one.drop_last() =~= none);
    assert(two.drop_last() =~= one);
    assert(three.drop_last() =~= two);
    assert(four.drop_last() =~= three);
    assert(run_after(none) == (RunPhase::Connecting, RunAction::Connect));
    assert(run_after(one) == run_goes_on(RunPhase::Connecting, connected));
    assert(run_after(two) == run_goes_on(run_after(one).0, shaken));
    assert(run_after(three) == run_goes_on(run_after(two).0, opened));
    assert(run_after(four) == run_goes_on(run_after(three).0, clipboard));
}

/// What happens to a client while it receives events.
#[derive(Debug)]
pub enum ClientEvent {
    /// A message has arrived.
    Received(Payload),
    /// Nothing can be received any more.
    ReceiveFailed,
    /// The local clipboard has changed, or is no longer watched.
    ClipboardChanged(Option<ClipboardData>),
    /// What was forwarded could not be sent.
    SendFailed,
}

/// What the client does about it.
#[derive(Debug)]
pub enum ClientTask {
    /// Injects an event. A failure does not matter.
    Inject(InputEvent),
    /// Sets the local clipboard. A failure does not matter.
    SetClipboard(ClipboardData),
    /// Sends a message. A failure does not matter.
    Reply(Message),
    /// Sends a message. A failure comes back as `SendFailed`.
    Forward(Message),
    /// Waits for what happens next.
    Wait,
    /// Ends the session.
    Stop,
}

/// The session of a client.
#[derive(Debug, Clone, Copy, PartialEq, Eq, Structural)]
pub struct ClientSession {
    /// The input events that were received.
    pub event_count: u64,
    /// Whether the local clipboard can be set.
    pub clipboard: bool,
}

/// What a client does about an event.
pub open spec fn client_task(session: ClientSession, event: ClientEvent) -> ClientTask {
    match event {
        ClientEvent::Received(Payload::Input(input)) => ClientTask::Inject(input),
        ClientEvent::Received(Payload::Clipboard(data)) => if session.clipboard {
            ClientTask::SetClipboard(data)
        } else {
            ClientTask::Wait
        },
        ClientEvent::Received(Payload::Control(ControlMessage::Disconnect)) => ClientTask::Stop,
        ClientEvent::Received(Payload::Heartbeat) => ClientTask::Reply(
            Message { payload: Payload::Heartbeat },
        ),
        ClientEvent::Received(_) => ClientTask::Wait,
        ClientEvent::ReceiveFailed => ClientTask::Stop,
        ClientEvent::ClipboardChanged(Some(data)) => ClientTask::Forward(
            Message { payload: Payload::Clipboard(data) },
        ),
        ClientEvent::ClipboardChanged(None) => ClientTask::Wait,
        ClientEvent::SendFailed => ClientTask::Stop,
    }
}

/// The session after an event: only the input events are counted.
pub open spec fn client_after(session: ClientSession, event: ClientEvent) -> ClientSession {
    match event {
        ClientEvent::Received(Payload::Input(_)) => ClientSession {
            event_count: (session.event_count + 1) as u64,
            ..session
        },
        _ => session,
    }
}

impl ClientSession {
    /// Begins a session.
    pub fn new(clipboard: bool) -> (r: Self)
        ensures
            r == (ClientSession { event_count: 0, clipboard }),
    {
        ClientSession { event_count: 0, clipboard }
    }

    /// Decides what to do about what happened.
    pub fn step(&mut self, event: ClientEvent) -> (r: ClientTask)
        requires
            event matches ClientEvent::Received(Payload::Input(_)) ==> old(self).event_count
                < u64::MAX,
        ensures
            r == client_task(*old(self), event),
            *final(self) == client_after(*old(self), event),
    {
        match event {
            ClientEvent::Received(payload) => match payload {
                Payload::Input(input) => {
                    self.event_count = self.event_count + 1;
                    ClientTask::Inject(input)
                },
                Payload::Clipboard(data) => {
                    if self.clipboard {
                        ClientTask::SetClipboard(data)
                    } else {
                        ClientTask::Wait
                    }
                },
                Payload::Control(control) => match control {
                    ControlMessage::Disconnect => ClientTask::Stop,
                    _ => ClientTask::Wait,
                },
                Payload::Heartbeat => ClientTask::Reply(Message::new(Payload::Heartbeat)),
                Payload::Handshake(_) => ClientTask::Wait,
            },
            ClientEvent::ReceiveFailed => ClientTask::Stop,
            ClientEvent::ClipboardChanged(change) => match change {
                Some(data) => ClientTask::Forward(Message::new(Payload::Clipboard(data))),
                None => ClientTask::Wait,
            },
            ClientEvent::SendFailed => ClientTask::Stop,
        }
    }
}

/// The session after a number of events.
pub open spec fn client_after_all(session: ClientSession, events: Seq<ClientEvent>) -> ClientSession
    decreases events.len(),
{
    if events.len() == 0 {
        session
    } else {
        client_after(client_after_all(session, events.drop_last()), events.last())
    }
}

/// How many of the events are input events.
pub open spec fn inputs_among(events: Seq<ClientEvent>) -> nat {
    events.filter(|e: ClientEvent| e matches ClientEvent::Received(Payload::Input(_))).len()
}

/// A client counts the input events that it receives, and nothing else.
pub proof fn law_client_counts_inputs(session: ClientSession, events: Seq<ClientEvent>)
    requires
        session.event_count + inputs_among(events) <= u64::MAX,
    ensures
        client_after_all(session, events).event_count == session.event_count + inputs_among(
            events,
        ),
        client_after_all(session, events).clipboard == session.clipboard,
    decreases events.len(),
{
    reveal(Seq::filter);
    if events.len() > 0 {
        law_client_counts_inputs(session, events.drop_last());
    }
}

/// A client introduces itself as who it is: with the version that it speaks, and with the name
/// and the identifier of its own configuration.
pub proof fn law_hello_tells_who_it_is(payload: Payload, version: Seq<char>, config: Config)
    requires
        is_hello(payload, version, config),
    ensures
        payload matches Payload::Handshake(HandshakeMessage::Hello(hello)) && {
            &&& hello.protocol_version@ == version
            &&& hello.device_name@ == config.device_name@
            &&& hello.device_id@ == config.device_id@
        },
{
}

/// A client answers a challenge, and nothing else, with the very nonce of the challenge, and
/// waits for the verdict only after that.
pub proof fn law_client_answers_the_challenge(
    before: ClientHandshake,
    received: Payload,
    after: ClientHandshake,
    step: ClientStep,
)
    requires
        client_goes_on(before, received, after, step),
    ensures
        step is Answer <==> before is AwaitingChallenge && (received matches Payload::Handshake(
            HandshakeMessage::Challenge(_),
        )),
        step matches ClientStep::Answer(answer) ==> (answer.payload matches Payload::Handshake(
            HandshakeMessage::Response(response),
        ) && {
            &&& response.signature@ == received->Handshake_0->Challenge_0.nonce@
            &&& response.cert_fingerprint@ == "client-fingerprint"@
        }),
        after is AwaitingVerdict <==> before is AwaitingVerdict || step is Answer,
{
}

/// A client is let in exactly by an acceptance after its answer, and keeps what it was told.
/// Whatever else it receives ends the handshake: a rejection with the reason of the server, and
/// anything else with what was received.
pub proof fn law_client_takes_the_verdict(
    before: ClientHandshake,
    received: Payload,
    after: ClientHandshake,
    step: ClientStep,
)
    requires
        client_goes_on(before, received, after, step),
    ensures
        step is Done <==> before is AwaitingVerdict && (received matches Payload::Handshake(
            HandshakeMessage::Accept(_),
        )),
        step matches ClientStep::Done(accept) ==> received == Payload::Handshake(
            HandshakeMessage::Accept(accept),
        ),
        received matches Payload::Handshake(HandshakeMessage::Reject(reject)) ==> step
            == ClientStep::Fail(
            if before is AwaitingChallenge {
                ClientHandshakeError::Rejected(reject.reason)
            } else {
                ClientHandshakeError::AuthenticationFailed(reject.reason)
            },
        ),
        step is Fail && !(received matches Payload::Handshake(HandshakeMessage::Reject(_))) ==> step
            == ClientStep::Fail(
            if before is AwaitingChallenge {
                ClientHandshakeError::ExpectedChallenge(received)
            } else {
                ClientHandshakeError::ExpectedVerdict(received)
            },
        ),
{
}

/// A run of a client that has failed or in which nothing more is received is over, whatever
/// comes after it.
pub proof fn law_client_run_ends(phase: RunPhase, success: bool, later: bool)
    ensures
        run_goes_on(phase, success).1 is Fail ==> run_goes_on(
            run_goes_on(phase, success).0,
            later,
        ).1 is Finish,
        phase is Receiving ==> run_goes_on(phase, success).1 is Finish,
        run_goes_on(phase, success).1 is Finish ==> run_goes_on(
            run_goes_on(phase, success).0,
            later,
        ).1 is Finish,
{
}

} // verus!
