//! The service of one client, from its first message to the end of its session.
use crate::config::Config;
use crate::events::{ClipboardData, InputEvent};
use crate::message::{HandshakeMessage, HelloMessage, Message, Payload};
use crate::server::{
    is_random_uuid, random_uuid, server_after, server_after_all, server_goes_on, server_task,
    Refusal, ServerEvent, ServerHandshake, ServerSession, ServerStep, ServerTask,
};
use crate::session_laws::{captured, inputs_in, law_captured_is_sent, sent, server_ended};
use vstd::prelude::*;

verus! {

/// How far the service of a client has come.
#[derive(Debug)]
pub enum ServicePhase {
    /// A message of the handshake is awaited.
    ShakingHands(ServerHandshake),
    /// A challenge is being sent, and the handshake goes on like this afterwards.
    Challenging(ServerHandshake),
    /// The client is being told that it is turned away.
    Refusing(Refusal),
    /// The client that said this hello is being told that it is let in.
    Accepting(HelloMessage),
    /// The client that said this hello is served.
    Serving(HelloMessage, ServerSession),
    /// The client that said this hello is being sent a message of its session.
    Sending(HelloMessage, ServerSession),
    Over,
}

/// What happens in the service of a client.
#[derive(Debug)]
pub enum ServiceEvent {
    /// A message of the handshake has arrived.
    Received(Payload),
    /// No message of the handshake can be received.
    ReceiveFailed,
    /// What was to be sent was sent.
    Sent,
    /// What was to be sent could not be sent.
    SendFailed,
    /// Something happened in the session.
    Happened(ServerEvent),
}

/// Why a client is not served.
#[derive(Debug, Clone, Copy, PartialEq, Eq, Structural)]
pub enum ServiceFailure {
    /// The connection failed.
    Connection,
    /// The client was turned away.
    Refused(Refusal),
}

/// What is to be done next in the service of a client.
#[derive(Debug)]
pub enum ServiceAction {
    /// Receive a message of the handshake.
    Receive,
    /// Send a message.
    Send(Message),
    /// Set the local clipboard, and wait for what happens in the session. A failure does
    /// not matter.
    SetClipboard(ClipboardData),
    /// Wait for what happens in the session.
    Wait,
    /// The session of the client that said this hello is over.
    End(HelloMessage, ServerSession),
    /// The client is not served.
    Fail(ServiceFailure),
    /// Nothing is to be done.
    Nothing,
}

/// The service of one client.
#[derive(Debug)]
pub struct Service {
    /// Whether the local clipboard can be set.
    pub clipboard: bool,
    pub phase: ServicePhase,
}

/// The step of the handshake that leads to a phase with an action, if one does.
pub open spec fn step_taken(phase: ServicePhase, action: ServiceAction) -> Option<ServerStep> {
    match (phase, action) {
        (ServicePhase::Challenging(next), ServiceAction::Send(message)) => Some(
            ServerStep::Challenge(message, next),
        ),
        (ServicePhase::Refusing(refusal), ServiceAction::Send(message)) => Some(
            ServerStep::Refuse(message, refusal),
        ),
        (ServicePhase::Accepting(hello), ServiceAction::Send(message)) => Some(
            ServerStep::Accept(message, hello),
        ),
        _ => None,
    }
}

/// The end of a handshake that turned a client away. Where the client had to be told and
/// was not, that is what the handshake fails of.
pub open spec fn refused(refusal: Refusal, told: bool) -> ServiceFailure {
    if refusal == Refusal::VersionMismatch && !told {
        ServiceFailure::Connection
    } else {
        ServiceFailure::Refused(refusal)
    }
}

/// How a session goes on, and what is to be done next.
pub open spec fn session_goes_on(
    hello: HelloMessage,
    session: ServerSession,
    event: ServerEvent,
) -> (ServicePhase, ServiceAction) {
    let after = server_after(session, event);
    match server_task(session, event) {
        ServerTask::Forward(message) => (
            ServicePhase::Sending(hello, after),
            ServiceAction::Send(message),
        ),
        ServerTask::SetClipboard(data) => (
            ServicePhase::Serving(hello, after),
            ServiceAction::SetClipboard(data),
        ),
        ServerTask::Wait => (ServicePhase::Serving(hello, after), ServiceAction::Wait),
        ServerTask::Stop => (ServicePhase::Over, ServiceAction::End(hello, after)),
    }
}

/// Whether the service of a client goes on from `before` to `after` with `action`, on the
/// server with this name and protocol version, if it draws `uuid` for the session. An
/// event that does not answer the last action changes nothing and asks for nothing.
pub open spec fn service_goes_on(
    before: Service,
    event: ServiceEvent,
    device_name: Seq<char>,
    version: Seq<char>,
    uuid: Seq<char>,
    after: Service,
    action: ServiceAction,
) -> bool {
    let failed = after.phase == ServicePhase::Over && action == ServiceAction::Fail(
        ServiceFailure::Connection,
    );
    &&& after.clipboard == before.clipboard
    &&& match (before.phase, event) {
        (
            ServicePhase::ShakingHands(handshake),
            ServiceEvent::Received(received),
        ) => step_taken(after.phase, action) matches Some(step) && server_goes_on(
            handshake,
            received,
            device_name,
            version,
            uuid,
            step,
        ),
        (ServicePhase::ShakingHands(_), ServiceEvent::ReceiveFailed) => failed,
        (ServicePhase::Challenging(next), ServiceEvent::Sent) => after.phase
            == ServicePhase::ShakingHands(next) && action == ServiceAction::Receive,
        (ServicePhase::Challenging(_), ServiceEvent::SendFailed) => failed,
        (
            ServicePhase::Refusing(refusal),
            ServiceEvent::Sent | ServiceEvent::SendFailed,
        ) => after.phase == ServicePhase::Over && action == ServiceAction::Fail(
            refused(refusal, event is Sent),
        ),
        (ServicePhase::Accepting(hello), ServiceEvent::Sent) => after.phase
            == ServicePhase::Serving(
            hello,
            ServerSession { event_count: 0, clipboard: before.clipboard },
        ) && action == ServiceAction::Wait,
        (ServicePhase::Accepting(_), ServiceEvent::SendFailed) => failed,
        (ServicePhase::Serving(hello, session), ServiceEvent::Happened(happened)) => (
            after.phase,
            action,
        ) == session_goes_on(hello, session, happened),
        (ServicePhase::Sending(hello, session), ServiceEvent::Sent) => after.phase
            == ServicePhase::Serving(hello, session) && action == ServiceAction::Wait,
        (ServicePhase::Sending(hello, session), ServiceEvent::SendFailed) => (
            after.phase,
            action,
        ) == session_goes_on(hello, session, ServerEvent::SendFailed),
        _ => after.phase == before.phase && action == ServiceAction::Nothing,
    }
}

/// Lets a session go on.
fn continue_session(hello: HelloMessage, session: ServerSession, event: ServerEvent) -> (r: (
    ServicePhase,
    ServiceAction,
))
    requires
        event is Input ==> session.event_count < u64::MAX,
    ensures
        r == session_goes_on(hello, session, event),
{
    let mut after = session;
    match after.step(event) {
        ServerTask::Forward(message) => (
            ServicePhase::Sending(hello, after),
            ServiceAction::Send(message),
        ),
        ServerTask::SetClipboard(data) => (
            ServicePhase::Serving(hello, after),
            ServiceAction::SetClipboard(data),
        ),
        ServerTask::Wait => (ServicePhase::Serving(hello, after), ServiceAction::Wait),
        ServerTask::Stop => (ServicePhase::Over, ServiceAction::End(hello, after)),
    }
}

/// The counter of a session that goes on has room for one more event.
pub open spec fn can_count(service: Service, event: ServiceEvent) -> bool {
    match (service.phase, event) {
        (
            ServicePhase::Serving(_, session),
            ServiceEvent::Happened(ServerEvent::Input(_)),
        ) => session.event_count < u64::MAX,
        _ => true,
    }
}

impl Service {
    /// Begins to serve a client. The first action is to receive a message.
    pub fn new(clipboard: bool) -> (r: Self)
        ensures
            r == (Service {
                clipboard,
                phase: ServicePhase::ShakingHands(ServerHandshake::AwaitingHello),
            }),
    {
        Service { clipboard, phase: ServicePhase::ShakingHands(ServerHandshake::new()) }
    }

    /// Takes in what happened, and says what is to be done next. A client that is let in
    /// gets a session with a UUID that is drawn for it.
    pub fn advance(self, event: ServiceEvent, config: &Config, protocol_version: &String) -> (r: (
        Service,
        ServiceAction,
    ))
        requires
            can_count(self, event),
        ensures
            exists|uuid: Seq<char>|
                (r.0.phase is Accepting && r.1 is Send ==> is_random_uuid(uuid))
                    && #[trigger] service_goes_on(
                    self,
                    event,
                    config.device_name@,
                    protocol_version@,
                    uuid,
                    r.0,
                    r.1,
                ),
    {
        let responded = match (&self.phase, &event) {
            (
                ServicePhase::ShakingHands(ServerHandshake::AwaitingResponse(_)),
                ServiceEvent::Received(Payload::Handshake(HandshakeMessage::Response(_))),
            ) => true,
            _ => false,
        };
        let uuid = if responded {
            random_uuid()
        } else {
            String::new()
        };
        self.advance_with(event, config, protocol_version, uuid.as_str())
    }

    /// Takes in what happened, with the UUID for the session.
    pub fn advance_with(
        self,
        event: ServiceEvent,
        config: &Config,
        protocol_version: &String,
        uuid: &str,
    ) -> (r: (Service, ServiceAction))
        requires
            can_count(self, event),
        ensures
            service_goes_on(
                self,
                event,
                config.device_name@,
                protocol_version@,
                uuid@,
                r.0,
                r.1,
            ),
    {
        let clipboard = self.clipboard;
        let (phase, action) = match (self.phase, event) {
            (ServicePhase::ShakingHands(handshake), ServiceEvent::Received(received)) => {
                match handshake.step_with(received, config, protocol_version, uuid) {
                    ServerStep::Challenge(message, next) => (
                        ServicePhase::Challenging(next),
                        ServiceAction::Send(message),
                    ),
                    ServerStep::Refuse(message, refusal) => (
                        ServicePhase::Refusing(refusal),
                        ServiceAction::Send(message),
                    ),
                    ServerStep::Accept(message, hello) => (
                        ServicePhase::Accepting(hello),
                        ServiceAction::Send(message),
                    ),
                }
            },
            (ServicePhase::Challenging(next), ServiceEvent::Sent) => (
                ServicePhase::ShakingHands(next),
                ServiceAction::Receive,
            ),
            (ServicePhase::Refusing(refusal), ServiceEvent::Sent) => (
                ServicePhase::Over,
                ServiceAction::Fail(ServiceFailure::Refused(refusal)),
            ),
            (ServicePhase::Refusing(refusal), ServiceEvent::SendFailed) => {
                let failure = if refusal.must_be_told() {
                    ServiceFailure::Connection
                } else {
                    ServiceFailure::Refused(refusal)
                };
                (ServicePhase::Over, ServiceAction::Fail(failure))
            },
            (ServicePhase::Accepting(hello), ServiceEvent::Sent) => (
                ServicePhase::Serving(hello, ServerSession::new(clipboard)),
                ServiceAction::Wait,
            ),
            (ServicePhase::ShakingHands(_), ServiceEvent::ReceiveFailed)
            | (ServicePhase::Challenging(_), ServiceEvent::SendFailed)
            | (ServicePhase::Accepting(_), ServiceEvent::SendFailed) => (
                ServicePhase::Over,
                ServiceAction::Fail(ServiceFailure::Connection),
            ),
            (
                ServicePhase::Serving(hello, session),
                ServiceEvent::Happened(happened),
            ) => continue_session(hello, session, happened),
            (ServicePhase::Sending(hello, session), ServiceEvent::Sent) => (
                ServicePhase::Serving(hello, session),
                ServiceAction::Wait,
            ),
            (ServicePhase::Sending(hello, session), ServiceEvent::SendFailed) => continue_session(
                hello,
                session,
                ServerEvent::SendFailed,
            ),
            (phase, _) => (phase, ServiceAction::Nothing),
        };
        (Service { clipboard, phase }, action)
    }
}

/// Whether a step of a service can be made, whatever UUID is drawn.
pub open spec fn can_go_on(
    before: Service,
    event: ServiceEvent,
    device_name: Seq<char>,
    version: Seq<char>,
    after: Service,
    action: ServiceAction,
) -> bool {
    exists|uuid: Seq<char>|
        service_goes_on(before, event, device_name, version, uuid, after, action)
}

/// Whether these are the states, the events and the actions of a service from its
/// beginning on.
pub open spec fn is_history(
    states: Seq<Service>,
    events: Seq<ServiceEvent>,
    actions: Seq<ServiceAction>,
    device_name: Seq<char>,
    version: Seq<char>,
) -> bool {
    &&& states.len() == events.len() + 1
    &&& actions.len() == events.len()
    &&& states[0].phase == ServicePhase::ShakingHands(ServerHandshake::AwaitingHello)
    &&& forall|i: int|
        0 <= i < events.len() ==> can_go_on(
            states[i],
            #[trigger] events[i],
            device_name,
            version,
            states[i + 1],
            actions[i],
        )
}

/// Whether an action serves a client: it sends input, the clipboard or a sign of life, or
/// sets the local clipboard.
pub open spec fn serves(action: ServiceAction) -> bool {
    match action {
        ServiceAction::Send(message) => !(message.payload is Handshake),
        ServiceAction::SetClipboard(_) => true,
        _ => false,
    }
}

/// Whether the handshake was completed by an event: the acceptance has been sent.
pub open spec fn completes_handshake(state: Service, event: ServiceEvent) -> bool {
    state.phase is Accepting && event is Sent
}

/// Whether the handshake was completed by one of the first `n` events.
pub open spec fn was_accepted(states: Seq<Service>, events: Seq<ServiceEvent>, n: int) -> bool {
    exists|j: int| 0 <= j < n && #[trigger] completes_handshake(states[j], events[j])
}

/// Whether one of the first `n` events was a hello in the version of the server, and a
/// later one a response.
pub open spec fn has_shaken_hands(
    events: Seq<ServiceEvent>,
    version: Seq<char>,
    n: int,
) -> bool {
    exists|a: int, b: int|
        0 <= a < b < n && #[trigger] is_hello_event(events[a], version)
            && #[trigger] is_response_event(events[b])
}

/// Whether an event was a hello in this version.
pub open spec fn is_hello_event(event: ServiceEvent, version: Seq<char>) -> bool {
    event matches ServiceEvent::Received(Payload::Handshake(HandshakeMessage::Hello(hello)))
        && hello.protocol_version@ == version
}

/// Whether an event was a response to a challenge.
pub open spec fn is_response_event(event: ServiceEvent) -> bool {
    event matches ServiceEvent::Received(Payload::Handshake(HandshakeMessage::Response(_)))
}

/// Whether one of the first `n` events was a hello in this version.
spec fn has_greeted(events: Seq<ServiceEvent>, version: Seq<char>, n: int) -> bool {
    exists|a: int| 0 <= a < n && #[trigger] is_hello_event(events[a], version)
}

/// What a phase tells of the events before it.
spec fn phase_is_earned(
    states: Seq<Service>,
    events: Seq<ServiceEvent>,
    version: Seq<char>,
    n: int,
) -> bool {
    match states[n].phase {
        ServicePhase::ShakingHands(ServerHandshake::AwaitingHello) => true,
        ServicePhase::ShakingHands(ServerHandshake::AwaitingResponse(_)) => has_greeted(
            events,
            version,
            n,
        ),
        ServicePhase::Challenging(next) => next is AwaitingResponse && has_greeted(
            events,
            version,
            n,
        ),
        ServicePhase::Accepting(_) => has_shaken_hands(events, version, n),
        ServicePhase::Serving(_, _) | ServicePhase::Sending(_, _) => was_accepted(
            states,
            events,
            n,
        ) && has_shaken_hands(events, version, n),
        ServicePhase::Refusing(_) | ServicePhase::Over => true,
    }
}

proof fn lemma_phase_is_earned(
    states: Seq<Service>,
    events: Seq<ServiceEvent>,
    actions: Seq<ServiceAction>,
    device_name: Seq<char>,
    version: Seq<char>,
    n: int,
)
    requires
        is_history(states, events, actions, device_name, version),
        0 <= n <= events.len(),
    ensures
        phase_is_earned(states, events, version, n),
    decreases n,
{
    if n > 0 {
        let i = n - 1;
        lemma_phase_is_earned(states, events, actions, device_name, version, i);
        let event = events[i];
        assert(can_go_on(states[i], event, device_name, version, states[i + 1], actions[i]));
        if has_greeted(events, version, i) {
            let a = choose|a: int| 0 <= a < i && #[trigger] is_hello_event(events[a], version);
            assert(0 <= a < n && is_hello_event(events[a], version));
            if is_response_event(event) {
                assert(0 <= a < i < n && is_hello_event(events[a], version) && is_response_event(
                    events[i],
                ));
            }
        }
        if is_hello_event(event, version) {
            assert(0 <= i < n && is_hello_event(events[i], version));
        }
        if has_shaken_hands(events, version, i) {
            let (a, b) = choose|a: int, b: int|
                0 <= a < b < i && #[trigger] is_hello_event(events[a], version)
                    && #[trigger] is_response_event(events[b]);
            assert(0 <= a < b < n && is_hello_event(events[a], version) && is_response_event(
                events[b],
            ));
        }
        if was_accepted(states, events, i) {
            let j = choose|j: int|
                0 <= j < i && #[trigger] completes_handshake(states[j], events[j]);
            assert(0 <= j < n && completes_handshake(states[j], events[j]));
        }
        if completes_handshake(states[i], event) {
            assert(0 <= i < n && completes_handshake(states[i], events[i]));
        }
    }
}

/// No client is served without a handshake: before anything of a session is sent, and
/// before the local clipboard is set, the client has said hello in the version of the
/// server and has responded, and the acceptance has been sent.
pub proof fn law_no_service_without_handshake(
    states: Seq<Service>,
    events: Seq<ServiceEvent>,
    actions: Seq<ServiceAction>,
    device_name: Seq<char>,
    version: Seq<char>,
    n: int,
)
    requires
        is_history(states, events, actions, device_name, version),
        0 <= n < events.len(),
        serves(actions[n]),
    ensures
        was_accepted(states, events, n),
        has_shaken_hands(events, version, n),
{
    lemma_phase_is_earned(states, events, actions, device_name, version, n);
    assert(can_go_on(
        states[n],
        events[n],
        device_name,
        version,
        states[n + 1],
        actions[n],
    ));
}

/// A client that is not served is sent nothing more: once the service has failed or the
/// client is being turned away, no message is sent and the clipboard is not set. All that
/// is left of a refusal is the failure.
pub proof fn law_silence_after_failure(
    states: Seq<Service>,
    events: Seq<ServiceEvent>,
    actions: Seq<ServiceAction>,
    device_name: Seq<char>,
    version: Seq<char>,
    n: int,
    later: int,
)
    requires
        is_history(states, events, actions, device_name, version),
        0 <= n < later < events.len(),
        actions[n] is Fail || states[n + 1].phase is Refusing,
    ensures
        actions[later] is Fail || actions[later] is Nothing,
        actions[n] is Fail ==> actions[later] is Nothing && states[later + 1].phase is Over,
        states[later + 1].phase is Over || states[later + 1].phase is Refusing,
    decreases later,
{
    assert(can_go_on(
        states[n],
        events[n],
        device_name,
        version,
        states[n + 1],
        actions[n],
    ));
    assert(can_go_on(
        states[later],
        events[later],
        device_name,
        version,
        states[later + 1],
        actions[later],
    ));
    if n < later - 1 {
        law_silence_after_failure(
            states,
            events,
            actions,
            device_name,
            version,
            n,
            later - 1,
        );
    }
}

/// What happened in the session, among the first `n` events.
pub open spec fn session_events(
    states: Seq<Service>,
    events: Seq<ServiceEvent>,
    n: int,
) -> Seq<ServerEvent>
    decreases n,
{
    if n <= 0 {
        seq![]
    } else {
        let before = session_events(states, events, n - 1);
        match (states[n - 1].phase, events[n - 1]) {
            (ServicePhase::Serving(_, _), ServiceEvent::Happened(event)) => before.push(event),
            (ServicePhase::Sending(_, _), ServiceEvent::SendFailed) => before.push(
                ServerEvent::SendFailed,
            ),
            _ => before,
        }
    }
}

/// The messages among the first `n` actions that serve the client.
pub open spec fn messages_served(actions: Seq<ServiceAction>, n: int) -> Seq<Message>
    decreases n,
{
    if n <= 0 {
        seq![]
    } else {
        let before = messages_served(actions, n - 1);
        match actions[n - 1] {
            ServiceAction::Send(message) if serves(actions[n - 1]) => before.push(message),
            _ => before,
        }
    }
}

/// The service of a client is its session: what a client is sent after the handshake is
/// what the session sends for what happened in it, and while the client is served the
/// session stands as it stands after these events.
pub proof fn law_service_is_the_session(
    states: Seq<Service>,
    events: Seq<ServiceEvent>,
    actions: Seq<ServiceAction>,
    device_name: Seq<char>,
    version: Seq<char>,
    n: int,
)
    requires
        is_history(states, events, actions, device_name, version),
        0 <= n <= events.len(),
    ensures
        ({
            let start = ServerSession { event_count: 0, clipboard: states[0].clipboard };
            let happened = session_events(states, events, n);
            &&& states[n].clipboard == states[0].clipboard
            &&& messages_served(actions, n) == sent(start, happened)
            &&& match states[n].phase {
                ServicePhase::Serving(_, session)
                | ServicePhase::Sending(_, session) => session == server_after_all(start, happened)
                    && !server_ended(start, happened),
                ServicePhase::Over => true,
                _ => happened.len() == 0,
            }
        }),
    decreases n,
{
    if n > 0 {
        let i = n - 1;
        law_service_is_the_session(states, events, actions, device_name, version, i);
        assert(can_go_on(
            states[i],
            events[i],
            device_name,
            version,
            states[i + 1],
            actions[i],
        ));
        let before = session_events(states, events, i);
        match (states[i].phase, events[i]) {
            (ServicePhase::Serving(_, _), ServiceEvent::Happened(event)) => {
                assert(before.push(event).drop_last() =~= before);
            },
            (ServicePhase::Sending(_, _), ServiceEvent::SendFailed) => {
                assert(before.push(ServerEvent::SendFailed).drop_last() =~= before);
            },
            _ => {},
        }
    }
}

/// What is captured while a client is served is what it is sent: the input events in the
/// messages to the client are the captured ones, in order, each once and unchanged.
pub proof fn law_service_forwards_what_is_captured(
    states: Seq<Service>,
    events: Seq<ServiceEvent>,
    actions: Seq<ServiceAction>,
    device_name: Seq<char>,
    version: Seq<char>,
    n: int,
)
    requires
        is_history(states, events, actions, device_name, version),
        0 <= n <= events.len(),
    ensures
        inputs_in(messages_served(actions, n)) == captured(
            ServerSession { event_count: 0, clipboard: states[0].clipboard },
            session_events(states, events, n),
        ),
{
    law_service_is_the_session(states, events, actions, device_name, version, n);
    law_captured_is_sent(
        ServerSession { event_count: 0, clipboard: states[0].clipboard },
        session_events(states, events, n),
        0,
    );
}

/// The messages among the first `n` actions that serve the client and have been sent by
/// then.
pub open spec fn messages_written(
    events: Seq<ServiceEvent>,
    actions: Seq<ServiceAction>,
    n: int,
) -> Seq<Message>
    decreases n,
{
    if n <= 1 {
        seq![]
    } else {
        let before = messages_written(events, actions, n - 1);
        match (actions[n - 2], events[n - 1]) {
            (ServiceAction::Send(message), ServiceEvent::Sent) if serves(
                actions[n - 2],
            ) => before.push(message),
            _ => before,
        }
    }
}

/// Whether each event answers the last action, and nothing that is sent fails.
pub open spec fn is_smooth(
    states: Seq<Service>,
    events: Seq<ServiceEvent>,
    n: int,
) -> bool {
    forall|i: int|
        0 <= i < n ==> match (#[trigger] states[i]).phase {
            ServicePhase::ShakingHands(_) => events[i] is Received,
            ServicePhase::Serving(_, _) => events[i] is Happened,
            ServicePhase::Over => false,
            _ => events[i] is Sent,
        }
}

/// What is sent to a client is written to it, as long as nothing fails: all but the
/// message that is just being sent.
proof fn lemma_served_is_written(
    states: Seq<Service>,
    events: Seq<ServiceEvent>,
    actions: Seq<ServiceAction>,
    device_name: Seq<char>,
    version: Seq<char>,
    n: int,
)
    requires
        is_history(states, events, actions, device_name, version),
        is_smooth(states, events, n),
        0 <= n <= events.len(),
    ensures
        messages_served(actions, n) == (if n > 0 && serves(actions[n - 1])
            && actions[n - 1] is Send {
            messages_written(events, actions, n).push(actions[n - 1]->Send_0)
        } else {
            messages_written(events, actions, n)
        }),
        n > 0 && actions[n - 1] is Send ==> states[n].phase is Challenging
            || states[n].phase is Refusing || states[n].phase is Accepting
            || states[n].phase is Sending,
    decreases n,
{
    if n > 0 {
        let i = n - 1;
        lemma_served_is_written(states, events, actions, device_name, version, i);
        assert(can_go_on(
            states[i],
            events[i],
            device_name,
            version,
            states[i + 1],
            actions[i],
        ));
    }
}

/// Clients do not take events from each other: two clients for which the same input events
/// are captured are sent the same ones, in the same order, each once and unchanged. As long
/// as nothing fails, and when nothing is just being sent, that is what was written to them.
pub proof fn law_clients_are_sent_the_same(
    states: (Seq<Service>, Seq<Service>),
    events: (Seq<ServiceEvent>, Seq<ServiceEvent>),
    actions: (Seq<ServiceAction>, Seq<ServiceAction>),
    device_name: Seq<char>,
    version: Seq<char>,
    n: (int, int),
    inputs: Seq<InputEvent>,
)
    requires
        is_history(states.0, events.0, actions.0, device_name, version),
        is_history(states.1, events.1, actions.1, device_name, version),
        0 <= n.0 <= events.0.len(),
        0 <= n.1 <= events.1.len(),
        captured(
            ServerSession { event_count: 0, clipboard: states.0[0].clipboard },
            session_events(states.0, events.0, n.0),
        ) == inputs,
        captured(
            ServerSession { event_count: 0, clipboard: states.1[0].clipboard },
            session_events(states.1, events.1, n.1),
        ) == inputs,
    ensures
        inputs_in(messages_served(actions.0, n.0)) == inputs,
        inputs_in(messages_served(actions.1, n.1)) == inputs,
        is_smooth(states.0, events.0, n.0) && states.0[n.0].phase is Serving ==> inputs_in(
            messages_written(events.0, actions.0, n.0),
        ) == inputs,
        is_smooth(states.1, events.1, n.1) && states.1[n.1].phase is Serving ==> inputs_in(
            messages_written(events.1, actions.1, n.1),
        ) == inputs,
{
    law_service_forwards_what_is_captured(
        states.0,
        events.0,
        actions.0,
        device_name,
        version,
        n.0,
    );
    law_service_forwards_what_is_captured(
        states.1,
        events.1,
        actions.1,
        device_name,
        version,
        n.1,
    );
    if is_smooth(states.0, events.0, n.0) {
        lemma_served_is_written(states.0, events.0, actions.0, device_name, version, n.0);
    }
    if is_smooth(states.1, events.1, n.1) {
        lemma_served_is_written(states.1, events.1, actions.1, device_name, version, n.1);
    }
}

/// A refusal is what the service fails of: once the client was told, or did not have to
/// be, the service fails of the refusal; a client of another version that could not be
/// told makes it fail of the connection.
pub proof fn law_refusal_is_the_failure(
    service: Service,
    refusal: Refusal,
    told: bool,
    device_name: Seq<char>,
    version: Seq<char>,
    uuid: Seq<char>,
    after: Service,
    action: ServiceAction,
)
    requires
        service.phase == ServicePhase::Refusing(refusal),
        service_goes_on(
            service,
            if told {
                ServiceEvent::Sent
            } else {
                ServiceEvent::SendFailed
            },
            device_name,
            version,
            uuid,
            after,
            action,
        ),
    ensures
        action == ServiceAction::Fail(
            if told || refusal != Refusal::VersionMismatch {
                ServiceFailure::Refused(refusal)
            } else {
                ServiceFailure::Connection
            },
        ),
        after.phase is Over,
{
}

/// The client that is served is the one that said hello: its session, and the end of it, hold
/// the hello that was received in the version of the server.
pub proof fn law_served_client_said_hello(
    states: Seq<Service>,
    events: Seq<ServiceEvent>,
    actions: Seq<ServiceAction>,
    device_name: Seq<char>,
    version: Seq<char>,
    n: int,
)
    requires
        is_history(states, events, actions, device_name, version),
        0 <= n <= events.len(),
    ensures
        match states[n].phase {
            ServicePhase::Accepting(hello)
            | ServicePhase::Serving(hello, _)
            | ServicePhase::Sending(hello, _)
            | ServicePhase::ShakingHands(ServerHandshake::AwaitingResponse(hello))
            | ServicePhase::Challenging(ServerHandshake::AwaitingResponse(hello)) => {
                &&& hello.protocol_version@ == version
                &&& was_received(events, hello, n)
            },
            _ => true,
        },
        n > 0 ==> (actions[n - 1] matches ServiceAction::End(hello, _) ==> was_received(
            events,
            hello,
            n,
        )),
    decreases n,
{
    if n > 0 {
        let i = n - 1;
        law_served_client_said_hello(states, events, actions, device_name, version, i);
        assert(can_go_on(
            states[i],
            events[i],
            device_name,
            version,
            states[i + 1],
            actions[i],
        ));
        assert forall|hello: HelloMessage| #[trigger] was_received(
            events,
            hello,
            i,
        ) implies was_received(events, hello, n) by {
            let a = choose|a: int|
                0 <= a < i && #[trigger] events[a] == ServiceEvent::Received(
                    Payload::Handshake(HandshakeMessage::Hello(hello)),
                );
            assert(events[a] == ServiceEvent::Received(
                Payload::Handshake(HandshakeMessage::Hello(hello)),
            ));
        }
        match events[i] {
            ServiceEvent::Received(Payload::Handshake(HandshakeMessage::Hello(hello))) => {
                assert(was_received(events, hello, n));
            },
            _ => {},
        }
    }
}

/// Whether a hello was received among the first `n` events.
pub open spec fn was_received(events: Seq<ServiceEvent>, hello: HelloMessage, n: int) -> bool {
    exists|a: int|
        0 <= a < n && #[trigger] events[a] == ServiceEvent::Received(
            Payload::Handshake(HandshakeMessage::Hello(hello)),
        )
}

/// The acceptance is what begins a session: it starts without events counted, and with the
/// clipboard that the server has.
pub proof fn law_session_begins(
    service: Service,
    hello: HelloMessage,
    device_name: Seq<char>,
    version: Seq<char>,
    uuid: Seq<char>,
    after: Service,
    action: ServiceAction,
)
    requires
        service.phase == ServicePhase::Accepting(hello),
        service_goes_on(
            service,
            ServiceEvent::Sent,
            device_name,
            version,
            uuid,
            after,
            action,
        ),
    ensures
        action is Wait,
        after.phase matches ServicePhase::Serving(client, session) && client == hello
            && session.event_count == 0 && session.clipboard == service.clipboard,
{
}

/// A service does what its session asks for: it sends what is forwarded, sets the clipboard
/// where that is to be done, and ends when the session stops; and it goes on with the session
/// once a message was sent.
pub proof fn law_service_obeys_the_session(
    service: Service,
    hello: HelloMessage,
    session: ServerSession,
    happened: ServerEvent,
    device_name: Seq<char>,
    version: Seq<char>,
    uuid: Seq<char>,
    after: Service,
    action: ServiceAction,
)
    requires
        service.phase == ServicePhase::Serving(hello, session),
        service_goes_on(
            service,
            ServiceEvent::Happened(happened),
            device_name,
            version,
            uuid,
            after,
            action,
        ),
    ensures
        server_task(session, happened) matches ServerTask::Forward(message) ==> action
            == ServiceAction::Send(message) && after.phase is Sending,
        server_task(session, happened) matches ServerTask::SetClipboard(data) ==> action
            == ServiceAction::SetClipboard(data) && after.phase is Serving,
        server_task(session, happened) is Wait ==> action is Wait && after.phase is Serving,
        server_task(session, happened) is Stop <==> action is End,
        action is End ==> after.phase is Over && action == ServiceAction::End(
            hello,
            server_after(session, happened),
        ),
        happened matches ServerEvent::Input(input) ==> (action matches ServiceAction::Send(message)
            && message.payload == Payload::Input(input)),
        after.phase matches ServicePhase::Serving(client, now) ==> client == hello && now
            == server_after(session, happened),
        after.phase matches ServicePhase::Sending(client, now) ==> client == hello && now
            == server_after(session, happened),
{
}

/// A message of the session that was sent lets the session go on as it stands; one that could
/// not be sent ends it. A connection that fails during the handshake ends the service.
pub proof fn law_service_hears_of_its_sending(
    service: Service,
    event: ServiceEvent,
    device_name: Seq<char>,
    version: Seq<char>,
    uuid: Seq<char>,
    after: Service,
    action: ServiceAction,
)
    requires
        service_goes_on(service, event, device_name, version, uuid, after, action),
    ensures
        service.phase matches ServicePhase::Sending(hello, session) ==> {
            &&& event is Sent ==> after.phase == ServicePhase::Serving(hello, session)
                && action is Wait
            &&& event is SendFailed ==> after.phase is Over && action == ServiceAction::End(
                hello,
                session,
            )
        },
        (service.phase is ShakingHands && event is ReceiveFailed) || ((service.phase is Challenging
            || service.phase is Accepting) && event is SendFailed) ==> after.phase is Over && action
            == ServiceAction::Fail(ServiceFailure::Connection),
        service.phase matches ServicePhase::Challenging(next) ==> (event is Sent ==> after.phase
            == ServicePhase::ShakingHands(next) && action is Receive),
        service.phase is Over ==> after.phase is Over && action is Nothing,
        after.clipboard == service.clipboard,
{
}

/// The handshake of a service is that of the server: what is received is answered by the step
/// of the handshake, and nothing but that is sent.
pub proof fn law_service_takes_the_step(
    service: Service,
    handshake: ServerHandshake,
    received: Payload,
    device_name: Seq<char>,
    version: Seq<char>,
    uuid: Seq<char>,
    after: Service,
    action: ServiceAction,
)
    requires
        service.phase == ServicePhase::ShakingHands(handshake),
        service_goes_on(
            service,
            ServiceEvent::Received(received),
            device_name,
            version,
            uuid,
            after,
            action,
        ),
    ensures
        action matches ServiceAction::Send(message) && match after.phase {
            ServicePhase::Challenging(next) => server_goes_on(
                handshake,
                received,
                device_name,
                version,
                uuid,
                ServerStep::Challenge(message, next),
            ),
            ServicePhase::Refusing(refusal) => server_goes_on(
                handshake,
                received,
                device_name,
                version,
                uuid,
                ServerStep::Refuse(message, refusal),
            ),
            ServicePhase::Accepting(hello) => server_goes_on(
                handshake,
                received,
                device_name,
                version,
                uuid,
                ServerStep::Accept(message, hello),
            ),
            _ => false,
        },
{
}

} // verus!
