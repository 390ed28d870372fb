//! What holds of a server and a client together, once they have shaken hands.
use crate::client::{client_after_all, client_task, ClientEvent, ClientSession, ClientTask};
use crate::convert::{converted, RawEvent};
use crate::events::{ClipboardData, ControlMessage, InputEvent};
use crate::message::{Message, Payload};
use crate::server::{server_after_all, server_task, ServerEvent, ServerSession, ServerTask};
use crate::uinput::{emitted, DeviceEvent};
use vstd::prelude::*;

verus! {

/// Input that is captured on the server is injected on the client: the message that
/// the server forwards makes the client inject the very event.
pub proof fn law_input_reaches_client(
    server: ServerSession,
    client: ClientSession,
    event: InputEvent,
)
    ensures
        ({
            let forwarded = server_task(server, ServerEvent::Input(event));
            let payload = forwarded->Forward_0.payload;
            &&& forwarded is Forward
            &&& client_task(client, ClientEvent::Received(payload)) == ClientTask::Inject(event)
        }),
{
}

/// From device to device: a key that is captured in remote mode and forwarded to a
/// client is emitted there with its code and its value.
pub proof fn law_key_end_to_end(raw: RawEvent, server: ServerSession, client: ClientSession)
    requires
        converted(raw) matches Some(InputEvent::Keyboard(_)),
    ensures
        ({
            let forwarded = server_task(server, ServerEvent::Input(converted(raw)->0));
            let payload = forwarded->Forward_0.payload;
            let injected = client_task(client, ClientEvent::Received(payload));
            &&& forwarded is Forward
            &&& injected is Inject
            &&& emitted(injected->Inject_0)[0] == (DeviceEvent {
                event_type: raw.event_type,
                code: raw.code,
                value: raw.value,
            })
        }),
{
    crate::uinput::law_key_arrives(raw);
}

/// The clipboard of the server is shared: a change that the server forwards sets the
/// clipboard of a client that has one.
pub proof fn law_clipboard_reaches_client(
    server: ServerSession,
    client: ClientSession,
    data: ClipboardData,
)
    ensures
        ({
            let forwarded = server_task(server, ServerEvent::Clipboard(data));
            let payload = forwarded->Forward_0.payload;
            &&& forwarded is Forward
            &&& client_task(client, ClientEvent::Received(payload)) == (if client.clipboard {
                ClientTask::SetClipboard(data)
            } else {
                ClientTask::Wait
            })
        }),
{
}

/// The clipboard of the client is shared: a change that the client forwards sets the
/// clipboard of a server that has one.
pub proof fn law_clipboard_reaches_server(
    server: ServerSession,
    client: ClientSession,
    data: ClipboardData,
)
    ensures
        ({
            let forwarded = client_task(client, ClientEvent::ClipboardChanged(Some(data)));
            let payload = forwarded->Forward_0.payload;
            &&& forwarded is Forward
            &&& server_task(server, ServerEvent::Received(payload)) == (if server.clipboard {
                ServerTask::SetClipboard(data)
            } else {
                ServerTask::Wait
            })
        }),
{
}

/// A sign of life is answered, once: the client replies to the heartbeat of the
/// server with a heartbeat, and the server leaves it at that.
pub proof fn law_heartbeat_is_answered(server: ServerSession, client: ClientSession)
    ensures
        ({
            let beat = server_task(server, ServerEvent::HeartbeatDue);
            let reply = client_task(client, ClientEvent::Received(beat->Forward_0.payload));
            let end = server_task(server, ServerEvent::Received(reply->Reply_0.payload));
            &&& beat == ServerTask::Forward(Message { payload: Payload::Heartbeat })
            &&& reply == ClientTask::Reply(Message { payload: Payload::Heartbeat })
            &&& end == ServerTask::Wait
        }),
{
}

/// A client ends its session exactly when the server asks it to disconnect, when
/// nothing can be received any more, or when a change of its clipboard cannot be
/// sent.
pub proof fn law_client_stops(session: ClientSession, event: ClientEvent)
    ensures
        client_task(session, event) is Stop <==> {
            ||| event == ClientEvent::Received(Payload::Control(ControlMessage::Disconnect))
            ||| event is ReceiveFailed
            ||| event is SendFailed
        },
{
}

/// A server ends the session of a client exactly when no more input is captured, when
/// nothing can be received any more, or when something cannot be sent. Nothing that a
/// client sends ends it.
pub proof fn law_server_stops(session: ServerSession, event: ServerEvent)
    ensures
        server_task(session, event) is Stop <==> event is InputClosed || event is ReceiveFailed
            || event is SendFailed,
{
}

/// Whether the session of a client has ended on the server.
pub open spec fn server_ended(session: ServerSession, events: Seq<ServerEvent>) -> bool
    decreases events.len(),
{
    events.len() > 0 && {
        let before = events.drop_last();
        ||| server_ended(session, before)
        ||| server_task(server_after_all(session, before), events.last()) is Stop
    }
}

/// The messages that the server sends until the session ends.
pub open spec fn sent(session: ServerSession, events: Seq<ServerEvent>) -> Seq<Message>
    decreases events.len(),
{
    if events.len() == 0 {
        seq![]
    } else {
        let before = events.drop_last();
        match server_task(server_after_all(session, before), events.last()) {
            ServerTask::Forward(message) if !server_ended(session, before) => sent(
                session,
                before,
            ).push(message),
            _ => sent(session, before),
        }
    }
}

/// The messages that the server has sent without a failure: all that it sends, but for
/// the last one if that could not be sent.
pub open spec fn written(session: ServerSession, events: Seq<ServerEvent>) -> Seq<Message>
    decreases events.len(),
{
    if events.len() == 0 {
        seq![]
    } else {
        let before = events.drop_last();
        if server_ended(session, before) {
            written(session, before)
        } else if events.last() is SendFailed {
            sent(session, before).drop_last()
        } else {
            sent(session, events)
        }
    }
}

/// The input events that are captured until the session ends.
pub open spec fn captured(session: ServerSession, events: Seq<ServerEvent>) -> Seq<InputEvent>
    decreases events.len(),
{
    if events.len() == 0 {
        seq![]
    } else {
        let before = events.drop_last();
        match events.last() {
            ServerEvent::Input(input) if !server_ended(session, before) => captured(
                session,
                before,
            ).push(input),
            _ => captured(session, before),
        }
    }
}

/// The input events that messages carry.
pub open spec fn inputs_in(messages: Seq<Message>) -> Seq<InputEvent>
    decreases messages.len(),
{
    if messages.len() == 0 {
        seq![]
    } else {
        let before = inputs_in(messages.drop_last());
        match messages.last().payload {
            Payload::Input(input) => before.push(input),
            _ => before,
        }
    }
}

/// What is captured is what is sent: over a whole session the input events that the
/// server sends are the captured ones, in order, each once and unchanged. Events that
/// came too fast add no message. Unless a sending fails, all of it is written.
pub proof fn law_captured_is_sent(session: ServerSession, events: Seq<ServerEvent>, lost: u64)
    ensures
        inputs_in(sent(session, events)) == captured(session, events),
        sent(session, events.push(ServerEvent::InputLagged(lost))) == sent(session, events),
        (forall|i: int| 0 <= i < events.len() ==> !(#[trigger] events[i] is SendFailed))
            ==> written(session, events) == sent(session, events),
    decreases events.len(),
{
    assert(events.push(ServerEvent::InputLagged(lost)).drop_last() =~= events);
    if events.len() > 0 {
        let before = events.drop_last();
        law_captured_is_sent(session, before, lost);
        let old_sent = sent(session, before);
        if forall|i: int| 0 <= i < events.len() ==> !(#[trigger] events[i] is SendFailed) {
            assert forall|i: int| 0 <= i < before.len() implies !(
            #[trigger] before[i] is SendFailed) by {
                assert(before[i] == events[i]);
            }
            assert(!(events[events.len() - 1] is SendFailed));
        }
        match server_task(server_after_all(session, before), events.last()) {
            ServerTask::Forward(message) => {
                assert(old_sent.push(message).drop_last() =~= old_sent);
            },
            _ => {},
        }
    }
}

/// A message that cannot be sent is the only one that is missing: when the sending of an
/// input event fails, the events before it were sent, and the session is over. When the
/// sending of anything else fails, every captured event was sent.
pub proof fn law_failed_send_ends_session(
    session: ServerSession,
    events: Seq<ServerEvent>,
    later: Seq<ServerEvent>,
)
    requires
        events.len() > 0,
        !server_ended(session, events),
        server_task(server_after_all(session, events.drop_last()), events.last()) is Forward,
    ensures
        ({
            let whole = events.push(ServerEvent::SendFailed) + later;
            &&& server_ended(session, whole)
            &&& inputs_in(written(session, whole)) == captured(session, events.drop_last())
            &&& events.last() is Input ==> captured(session, events.drop_last()) == captured(
                session,
                events,
            ).drop_last()
            &&& !(events.last() is Input) ==> captured(session, events.drop_last()) == captured(
                session,
                events,
            )
        }),
    decreases later.len(),
{
    let failed = events.push(ServerEvent::SendFailed);
    let before = events.drop_last();
    assert(failed.drop_last() =~= events);
    law_captured_is_sent(session, before, 0);
    let message = server_task(server_after_all(session, before), events.last())->Forward_0;
    assert(sent(session, events) == sent(session, before).push(message));
    assert(sent(session, events).drop_last() =~= sent(session, before));
    if events.last() is Input {
        assert(captured(session, events).drop_last() =~= captured(session, before));
    }
    if later.len() == 0 {
        assert(failed + later =~= failed);
    } else {
        law_failed_send_ends_session(session, events, later.drop_last());
        assert((failed + later).drop_last() =~= failed + later.drop_last());
    }
}

/// Whether the session of a client has ended.
pub open spec fn client_ended(session: ClientSession, events: Seq<ClientEvent>) -> bool
    decreases events.len(),
{
    events.len() > 0 && {
        let before = events.drop_last();
        ||| client_ended(session, before)
        ||| client_task(client_after_all(session, before), events.last()) is Stop
    }
}

/// The input events that the client injects until the session ends. An injection that
/// fails leaves no trace in what comes after it.
pub open spec fn injected(session: ClientSession, events: Seq<ClientEvent>) -> Seq<InputEvent>
    decreases events.len(),
{
    if events.len() == 0 {
        seq![]
    } else {
        let before = events.drop_last();
        match client_task(client_after_all(session, before), events.last()) {
            ClientTask::Inject(input) if !client_ended(session, before) => injected(
                session,
                before,
            ).push(input),
            _ => injected(session, before),
        }
    }
}

/// The replies that the client sends until the session ends.
pub open spec fn replies(session: ClientSession, events: Seq<ClientEvent>) -> Seq<Message>
    decreases events.len(),
{
    if events.len() == 0 {
        seq![]
    } else {
        let before = events.drop_last();
        match client_task(client_after_all(session, before), events.last()) {
            ClientTask::Reply(message) if !client_ended(session, before) => replies(
                session,
                before,
            ).push(message),
            _ => replies(session, before),
        }
    }
}

/// The messages that the client receives until the session ends.
pub open spec fn arrived(session: ClientSession, events: Seq<ClientEvent>) -> Seq<Message>
    decreases events.len(),
{
    if events.len() == 0 {
        seq![]
    } else {
        let before = events.drop_last();
        match events.last() {
            ClientEvent::Received(payload) if !client_ended(session, before) => arrived(
                session,
                before,
            ).push(Message { payload }),
            _ => arrived(session, before),
        }
    }
}

/// How many of the messages are heartbeats.
pub open spec fn heartbeats_in(messages: Seq<Message>) -> nat
    decreases messages.len(),
{
    if messages.len() == 0 {
        0
    } else {
        heartbeats_in(messages.drop_last()) + if messages.last().payload is Heartbeat {
            1nat
        } else {
            0nat
        }
    }
}

/// What is received is what is injected: over a whole session the client injects the
/// input events that it receives, in order, each once and unchanged, whatever came of
/// the injections before. It sends one reply for each heartbeat, and no other.
pub proof fn law_received_is_injected(session: ClientSession, events: Seq<ClientEvent>)
    ensures
        injected(session, events) == inputs_in(arrived(session, events)),
        replies(session, events).len() == heartbeats_in(arrived(session, events)),
        forall|i: int|
            0 <= i < replies(session, events).len() ==> (#[trigger] replies(
                session,
                events,
            )[i]).payload is Heartbeat,
    decreases events.len(),
{
    if events.len() > 0 {
        let before = events.drop_last();
        law_received_is_injected(session, before);
        match events.last() {
            ClientEvent::Received(payload) => {
                let message = Message { payload };
                assert(arrived(session, before).push(message).drop_last() =~= arrived(
                    session,
                    before,
                ));
            },
            _ => {},
        }
    }
}

/// The clipboard contents that messages carry.
pub open spec fn clipboards_in(messages: Seq<Message>) -> Seq<ClipboardData>
    decreases messages.len(),
{
    if messages.len() == 0 {
        seq![]
    } else {
        let before = clipboards_in(messages.drop_last());
        match messages.last().payload {
            Payload::Clipboard(data) => before.push(data),
            _ => before,
        }
    }
}

/// The changes of the local clipboard of the server until the session ends.
pub open spec fn server_changes(
    session: ServerSession,
    events: Seq<ServerEvent>,
) -> Seq<ClipboardData>
    decreases events.len(),
{
    if events.len() == 0 {
        seq![]
    } else {
        let before = events.drop_last();
        match events.last() {
            ServerEvent::Clipboard(data) if !server_ended(session, before) => server_changes(
                session,
                before,
            ).push(data),
            _ => server_changes(session, before),
        }
    }
}

/// The messages that the server receives until the session ends.
pub open spec fn server_arrived(session: ServerSession, events: Seq<ServerEvent>) -> Seq<Message>
    decreases events.len(),
{
    if events.len() == 0 {
        seq![]
    } else {
        let before = events.drop_last();
        match events.last() {
            ServerEvent::Received(payload) if !server_ended(session, before) => server_arrived(
                session,
                before,
            ).push(Message { payload }),
            _ => server_arrived(session, before),
        }
    }
}

/// What the server sets its clipboard to until the session ends.
pub open spec fn server_sets(
    session: ServerSession,
    events: Seq<ServerEvent>,
) -> Seq<ClipboardData>
    decreases events.len(),
{
    if events.len() == 0 {
        seq![]
    } else {
        let before = events.drop_last();
        match server_task(server_after_all(session, before), events.last()) {
            ServerTask::SetClipboard(data) if !server_ended(session, before) => server_sets(
                session,
                before,
            ).push(data),
            _ => server_sets(session, before),
        }
    }
}

/// Every change of the clipboard of the server is sent, and whatever arrives is set: over a
/// whole session the clipboard contents that the server sends are the changes of its
/// clipboard, in order, each once and unchanged; and it sets its clipboard, if it has one,
/// to the contents that it receives, in order, each once and unchanged.
pub proof fn law_server_shares_clipboard(session: ServerSession, events: Seq<ServerEvent>)
    ensures
        clipboards_in(sent(session, events)) == server_changes(session, events),
        server_sets(session, events) == (if session.clipboard {
            clipboards_in(server_arrived(session, events))
        } else {
            Seq::<ClipboardData>::empty()
        }),
        server_after_all(session, events).clipboard == session.clipboard,
    decreases events.len(),
{
    if events.len() > 0 {
        let before = events.drop_last();
        law_server_shares_clipboard(session, before);
        let old_sent = sent(session, before);
        match server_task(server_after_all(session, before), events.last()) {
            ServerTask::Forward(message) => {
                assert(old_sent.push(message).drop_last() =~= old_sent);
            },
            _ => {},
        }
        match events.last() {
            ServerEvent::Received(payload) => {
                let old_arrived = server_arrived(session, before);
                assert(old_arrived.push(Message { payload }).drop_last() =~= old_arrived);
            },
            _ => {},
        }
    }
}

/// The changes of the local clipboard of the client until the session ends.
pub open spec fn client_changes(
    session: ClientSession,
    events: Seq<ClientEvent>,
) -> Seq<ClipboardData>
    decreases events.len(),
{
    if events.len() == 0 {
        seq![]
    } else {
        let before = events.drop_last();
        match events.last() {
            ClientEvent::ClipboardChanged(Some(data)) if !client_ended(
                session,
                before,
            ) => client_changes(session, before).push(data),
            _ => client_changes(session, before),
        }
    }
}

/// The messages that the client forwards until the session ends.
pub open spec fn client_sent(session: ClientSession, events: Seq<ClientEvent>) -> Seq<Message>
    decreases events.len(),
{
    if events.len() == 0 {
        seq![]
    } else {
        let before = events.drop_last();
        match client_task(client_after_all(session, before), events.last()) {
            ClientTask::Forward(message) if !client_ended(session, before) => client_sent(
                session,
                before,
            ).push(message),
            _ => client_sent(session, before),
        }
    }
}

/// What the client sets its clipboard to until the session ends.
pub open spec fn client_sets(
    session: ClientSession,
    events: Seq<ClientEvent>,
) -> Seq<ClipboardData>
    decreases events.len(),
{
    if events.len() == 0 {
        seq![]
    } else {
        let before = events.drop_last();
        match client_task(client_after_all(session, before), events.last()) {
            ClientTask::SetClipboard(data) if !client_ended(session, before) => client_sets(
                session,
                before,
            ).push(data),
            _ => client_sets(session, before),
        }
    }
}

/// Every change of the clipboard of the client is sent, and whatever arrives is set: over a
/// whole session the client forwards the changes of its clipboard and nothing else, in
/// order, each once and unchanged; and it sets its clipboard, if it has one, to the contents
/// that it receives, in order, each once and unchanged.
pub proof fn law_client_shares_clipboard(session: ClientSession, events: Seq<ClientEvent>)
    ensures
        client_sent(session, events) == client_changes(session, events).map_values(
            |data: ClipboardData| Message { payload: Payload::Clipboard(data) },
        ),
        client_sets(session, events) == (if session.clipboard {
            clipboards_in(arrived(session, events))
        } else {
            Seq::<ClipboardData>::empty()
        }),
        client_after_all(session, events).clipboard == session.clipboard,
    decreases events.len(),
{
    let as_message = |data: ClipboardData| Message { payload: Payload::Clipboard(data) };
    if events.len() > 0 {
        let before = events.drop_last();
        law_client_shares_clipboard(session, before);
        match events.last() {
            ClientEvent::ClipboardChanged(Some(data)) => {
                let old_changes = client_changes(session, before);
                assert(old_changes.push(data).map_values(as_message) =~= old_changes.map_values(
                    as_message,
                ).push(as_message(data)));
            },
            ClientEvent::Received(payload) => {
                let old_arrived = arrived(session, before);
                assert(old_arrived.push(Message { payload }).drop_last() =~= old_arrived);
            },
            _ => {},
        }
    }
}

/// What happens to a client that receives these messages.
pub open spec fn receipts(messages: Seq<Message>) -> Seq<ClientEvent> {
    messages.map_values(|m: Message| ClientEvent::Received(m.payload))
}

proof fn lemma_receipts(client: ClientSession, messages: Seq<Message>)
    requires
        forall|i: int|
            0 <= i < messages.len() ==> !((#[trigger] messages[i]).payload is Control),
    ensures
        !client_ended(client, receipts(messages)),
        arrived(client, receipts(messages)) == messages,
    decreases messages.len(),
{
    if messages.len() > 0 {
        lemma_receipts(client, messages.drop_last());
        assert(receipts(messages).drop_last() =~= receipts(messages.drop_last()));
        assert(!(messages.last().payload is Control));
        assert(messages.drop_last().push(Message { payload: messages.last().payload })
            =~= messages);
    }
}

proof fn lemma_no_control_is_sent(session: ServerSession, events: Seq<ServerEvent>)
    ensures
        forall|i: int|
            0 <= i < sent(session, events).len() ==> !((#[trigger] sent(
                session,
                events,
            )[i]).payload is Control),
    decreases events.len(),
{
    if events.len() > 0 {
        lemma_no_control_is_sent(session, events.drop_last());
    }
}

/// From machine to machine: a client that receives what the server sends injects what
/// the server captured, in order, each event once and unchanged.
pub proof fn law_captured_is_injected(
    server: ServerSession,
    client: ClientSession,
    events: Seq<ServerEvent>,
)
    ensures
        injected(client, receipts(sent(server, events))) == captured(server, events),
{
    lemma_no_control_is_sent(server, events);
    lemma_receipts(client, sent(server, events));
    law_received_is_injected(client, receipts(sent(server, events)));
    law_captured_is_sent(server, events, 0);
}

/// What happens to a server that receives these messages.
pub open spec fn server_receipts(messages: Seq<Message>) -> Seq<ServerEvent> {
    messages.map_values(|m: Message| ServerEvent::Received(m.payload))
}

proof fn lemma_server_receipts(server: ServerSession, messages: Seq<Message>)
    ensures
        !server_ended(server, server_receipts(messages)),
        server_arrived(server, server_receipts(messages)) == messages,
    decreases messages.len(),
{
    if messages.len() > 0 {
        lemma_server_receipts(server, messages.drop_last());
        assert(server_receipts(messages).drop_last() =~= server_receipts(messages.drop_last()));
        assert(messages.drop_last().push(Message { payload: messages.last().payload })
            =~= messages);
    }
}

proof fn lemma_clipboards_of_changes(changes: Seq<ClipboardData>)
    ensures
        clipboards_in(
            changes.map_values(
                |data: ClipboardData| Message { payload: Payload::Clipboard(data) },
            ),
        ) == changes,
    decreases changes.len(),
{
    let as_message = |data: ClipboardData| Message { payload: Payload::Clipboard(data) };
    if changes.len() > 0 {
        lemma_clipboards_of_changes(changes.drop_last());
        assert(changes.map_values(as_message).drop_last() =~= changes.drop_last().map_values(
            as_message,
        ));
        assert(changes.drop_last().push(changes.last()) =~= changes);
    }
}

/// From clipboard to clipboard: a client with a clipboard that receives what the server
/// sends sets it to each change of the clipboard of the server, in order; and so does a
/// server that receives what a client sends.
pub proof fn law_clipboards_are_shared(
    server: ServerSession,
    client: ClientSession,
    served: Seq<ServerEvent>,
    experienced: Seq<ClientEvent>,
)
    requires
        server.clipboard,
        client.clipboard,
    ensures
        client_sets(client, receipts(sent(server, served))) == server_changes(server, served),
        server_sets(server, server_receipts(client_sent(client, experienced))) == client_changes(
            client,
            experienced,
        ),
{
    let to_client = sent(server, served);
    lemma_no_control_is_sent(server, served);
    lemma_receipts(client, to_client);
    law_client_shares_clipboard(client, receipts(to_client));
    law_server_shares_clipboard(server, served);

    let to_server = client_sent(client, experienced);
    lemma_server_receipts(server, to_server);
    law_server_shares_clipboard(server, server_receipts(to_server));
    law_client_shares_clipboard(client, experienced);
    lemma_clipboards_of_changes(client_changes(client, experienced));
}

/// How many of the messages are to be sent for nothing but a sign of life.
pub open spec fn beats_due(session: ServerSession, events: Seq<ServerEvent>) -> nat
    decreases events.len(),
{
    if events.len() == 0 {
        0
    } else {
        let before = events.drop_last();
        beats_due(session, before) + if events.last() is HeartbeatDue && !server_ended(
            session,
            before,
        ) {
            1nat
        } else {
            0nat
        }
    }
}

/// A server sends nothing else: over a whole session there is one message for each captured
/// event, one for each change of the clipboard and one for each heartbeat that was due, and no
/// other, whatever the client sends.
pub proof fn law_server_sends_nothing_else(session: ServerSession, events: Seq<ServerEvent>)
    ensures
        heartbeats_in(sent(session, events)) == beats_due(session, events),
        sent(session, events).len() == captured(session, events).len() + server_changes(
            session,
            events,
        ).len() + beats_due(session, events),
    decreases events.len(),
{
    if events.len() > 0 {
        let before = events.drop_last();
        law_server_sends_nothing_else(session, before);
        let old_sent = sent(session, before);
        match server_task(server_after_all(session, before), events.last()) {
            ServerTask::Forward(message) => {
                assert(old_sent.push(message).drop_last() =~= old_sent);
            },
            _ => {},
        }
    }
}

/// What is forwarded carries the very event: an input event, a change of the clipboard or a
/// sign of life, as it came.
pub proof fn law_server_task_by_event(session: ServerSession, event: ServerEvent)
    ensures
        event matches ServerEvent::Input(input) ==> (server_task(session, event)
            matches ServerTask::Forward(message) && message.payload == Payload::Input(input)),
        event matches ServerEvent::Clipboard(data) ==> (server_task(session, event)
            matches ServerTask::Forward(message) && message.payload == Payload::Clipboard(data)),
        event is HeartbeatDue ==> (server_task(session, event) matches ServerTask::Forward(message)
            && message.payload is Heartbeat),
        server_task(session, event) is Forward ==> event is Input || event is Clipboard
            || event is HeartbeatDue,
        server_task(session, event) matches ServerTask::SetClipboard(data) ==> session.clipboard
            && event == ServerEvent::Received(Payload::Clipboard(data)),
        event matches ServerEvent::Received(Payload::Clipboard(data)) ==> server_task(session, event)
            == (if session.clipboard {
            ServerTask::SetClipboard(data)
        } else {
            ServerTask::Wait
        }),
        crate::server::HEARTBEAT_SECONDS == 30,
{
}

/// What a client does about a message is what the message asks for, and nothing else.
pub proof fn law_client_task_by_event(session: ClientSession, event: ClientEvent)
    ensures
        event matches ClientEvent::Received(Payload::Input(input)) ==> client_task(session, event)
            == ClientTask::Inject(input),
        client_task(session, event) matches ClientTask::Inject(input) ==> event
            == ClientEvent::Received(Payload::Input(input)),
        event matches ClientEvent::Received(Payload::Clipboard(data)) ==> client_task(session, event)
            == (if session.clipboard {
            ClientTask::SetClipboard(data)
        } else {
            ClientTask::Wait
        }),
        client_task(session, event) matches ClientTask::SetClipboard(data) ==> event
            == ClientEvent::Received(Payload::Clipboard(data)),
        client_task(session, event) is Reply <==> event == ClientEvent::Received(
            Payload::Heartbeat,
        ),
        client_task(session, event) matches ClientTask::Reply(message)
            ==> message.payload is Heartbeat,
        event matches ClientEvent::ClipboardChanged(Some(data)) ==> (client_task(session, event)
            matches ClientTask::Forward(message) && message.payload == Payload::Clipboard(data)),
        client_task(session, event) is Forward ==> (event matches ClientEvent::ClipboardChanged(
            Some(_),
        )),
{
}

} // verus!
