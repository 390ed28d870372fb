//! What holds of captured devices over many steps.
use crate::capture::{
    advanced, pending, resume, skip_toggles, toggle_press, usable_devices, well_formed,
    CaptureAction, CaptureEvent, CaptureInput, CapturePhase, CaptureState, Probe,
};
use crate::convert::{converted, RawEvent};
use crate::events::InputEvent;
use vstd::prelude::*;

verus! {

/// Whether the toggle key was pressed in a batch.
pub open spec fn has_toggle(batch: Seq<RawEvent>) -> bool {
    exists|i: int| 0 <= i < batch.len() && toggle_press(#[trigger] batch[i])
}

/// What is sent of a batch from `from` on, if `readings` tells for each event
/// whether the mode was remote when it was read: the conversion of each event that
/// is no press of the toggle key, has one, and met the remote mode.
pub open spec fn forwarded(
    batch: Seq<RawEvent>,
    from: int,
    readings: spec_fn(int) -> bool,
) -> Seq<InputEvent>
    decreases batch.len() - from,
{
    if 0 <= from < batch.len() {
        let rest = forwarded(batch, from + 1, readings);
        match converted(batch[from]) {
            Some(event) if !toggle_press(batch[from]) && readings(from) => seq![event] + rest,
            _ => rest,
        }
    } else {
        seq![]
    }
}

/// What a capture sends until it is through with its batch, if `readings` tells what
/// each reading of the mode gives.
pub open spec fn batch_sends(s: CaptureState, readings: spec_fn(int) -> bool) -> Seq<InputEvent>
    decreases s.batch.len() - s.next,
    when well_formed(s)
    via batch_sends_decreases
{
    if s.phase is Filtering {
        let read = advanced(s, CaptureInput::Mode(readings(s.next)));
        match read.phase {
            CapturePhase::Sending(event) => seq![event] + batch_sends(
                advanced(read, CaptureInput::Done),
                readings,
            ),
            _ => batch_sends(read, readings),
        }
    } else {
        seq![]
    }
}

proof fn lemma_skip(batch: Seq<RawEvent>, from: int)
    requires
        0 <= from <= batch.len(),
    ensures
        from <= skip_toggles(batch, from) <= batch.len(),
        forall|i: int|
            from <= i < skip_toggles(batch, from) ==> toggle_press(#[trigger] batch[i]),
        skip_toggles(batch, from) < batch.len() ==> !toggle_press(
            batch[skip_toggles(batch, from)],
        ),
    decreases batch.len() - from,
{
    if from < batch.len() && toggle_press(batch[from]) {
        lemma_skip(batch, from + 1);
    }
}

#[via_fn]
proof fn batch_sends_decreases(s: CaptureState, readings: spec_fn(int) -> bool) {
    if well_formed(s) && s.phase is Filtering {
        lemma_skip(s.batch, s.next + 1);
    }
}

proof fn lemma_forwarded_skip(
    batch: Seq<RawEvent>,
    from: int,
    to: int,
    readings: spec_fn(int) -> bool,
)
    requires
        0 <= from <= to <= batch.len(),
        forall|i: int| from <= i < to ==> toggle_press(#[trigger] batch[i]),
    ensures
        forwarded(batch, from, readings) == forwarded(batch, to, readings),
    decreases to - from,
{
    if from < to {
        assert(toggle_press(batch[from]));
        lemma_forwarded_skip(batch, from + 1, to, readings);
    }
}

proof fn lemma_batch_sends(s: CaptureState, from: int, readings: spec_fn(int) -> bool)
    requires
        0 <= from <= s.batch.len(),
    ensures
        batch_sends(resume(s, from), readings) == forwarded(s.batch, from, readings),
    decreases s.batch.len() - from,
{
    lemma_skip(s.batch, from);
    let r = resume(s, from);
    lemma_forwarded_skip(s.batch, from, r.next, readings);
    if r.next < s.batch.len() {
        lemma_skip(s.batch, r.next + 1);
        let read = advanced(r, CaptureInput::Mode(readings(r.next)));
        match read.phase {
            CapturePhase::Sending(event) => {
                lemma_batch_sends(read, r.next + 1, readings);
            },
            _ => {
                lemma_batch_sends(r, r.next + 1, readings);
            },
        }
    }
}

/// Events are forwarded only in remote mode, and then in order: whatever the mode
/// was found to be for each event of a batch, the events sent are the conversions
/// of those that met the remote mode. The press of the toggle key is never sent.
pub proof fn law_forwarding(
    s: CaptureState,
    batch: Seq<RawEvent>,
    readings: spec_fn(int) -> bool,
)
    requires
        well_formed(s),
        s.phase is Fetching,
    ensures
        batch_sends(advanced(s, CaptureInput::Fetched(batch)), readings) == forwarded(
            batch,
            0,
            readings,
        ),
{
    lemma_batch_sends(CaptureState { batch, toggle_requested: false, ..s }, 0, readings);
}

/// In local mode nothing of a batch is sent.
pub proof fn law_local_mode_is_silent(batch: Seq<RawEvent>, from: int, readings: spec_fn(int) -> bool)
    requires
        0 <= from <= batch.len(),
        forall|i: int| from <= i < batch.len() ==> !#[trigger] readings(i),
    ensures
        forwarded(batch, from, readings) == Seq::<InputEvent>::empty(),
    decreases batch.len() - from,
{
    if from < batch.len() {
        assert(!readings(from));
        law_local_mode_is_silent(batch, from + 1, readings);
    }
}

/// A captured device together with the mode that all devices share and with what
/// was sent.
#[verifier::ext_equal]
pub struct Scene {
    pub state: CaptureState,
    pub remote: bool,
    pub sent: Seq<InputEvent>,
}

/// The pending action is carried out, with success.
pub open spec fn obeyed(scene: Scene) -> Scene {
    let action = pending(scene.state);
    Scene {
        state: advanced(
            scene.state,
            match action {
                CaptureAction::LoadMode => CaptureInput::Mode(scene.remote),
                _ => CaptureInput::Done,
            },
        ),
        remote: match action {
            CaptureAction::StoreMode(remote) => remote,
            _ => scene.remote,
        },
        sent: match action {
            CaptureAction::Send(event) => scene.sent.push(event),
            _ => scene.sent,
        },
    }
}

/// How many actions may be left until the next events are fetched.
pub open spec fn work_left(s: CaptureState) -> int {
    match s.phase {
        CapturePhase::Filtering => 10 + 2 * (s.batch.len() - s.next) + 1,
        CapturePhase::Sending(_) => 10 + 2 * (s.batch.len() - s.next),
        CapturePhase::ToggleReading => 9,
        CapturePhase::ToggleWriting(_) => 8,
        CapturePhase::ToggleGrabbing | CapturePhase::ToggleUngrabbing => 7,
        CapturePhase::SyncReading => 6,
        CapturePhase::SyncGrabbing | CapturePhase::SyncUngrabbing => 5,
        CapturePhase::Releasing => 4,
        CapturePhase::Pausing => 3,
        CapturePhase::Fetching | CapturePhase::Stopped => 0,
    }
}

/// Every action is carried out, with success and without another device toggling
/// the mode, until the next events are to be fetched or the device is done with.
pub open spec fn settled(scene: Scene) -> Scene
    decreases work_left(scene.state),
    when well_formed(scene.state)
    via settled_decreases
{
    if scene.state.phase is Fetching || scene.state.phase is Stopped {
        scene
    } else {
        settled(obeyed(scene))
    }
}

#[via_fn]
proof fn settled_decreases(scene: Scene) {
    if well_formed(scene.state) && (scene.state.phase is Filtering
        || scene.state.phase is Sending) {
        lemma_skip(scene.state.batch, scene.state.next + 1);
    }
}

proof fn lemma_step_well_formed(s: CaptureState, input: CaptureInput)
    requires
        well_formed(s),
    ensures
        well_formed(advanced(s, input)),
{
    match (s.phase, input) {
        (CapturePhase::Fetching, CaptureInput::Fetched(batch)) => {
            lemma_skip(batch, 0);
        },
        (CapturePhase::Filtering, CaptureInput::Mode(_)) => {
            lemma_skip(s.batch, s.next + 1);
        },
        (CapturePhase::Sending(_), _) => {
            lemma_skip(s.batch, s.next + 1);
        },
        _ => {},
    }
}

/// Once the batch is through, the mode is toggled if that was asked for, and the
/// grab follows the mode.
proof fn lemma_settle_tail(scene: Scene)
    requires
        well_formed(scene.state),
        scene.state.phase is ToggleReading || scene.state.phase is SyncReading,
    ensures
        ({
            let remote = scene.remote != (scene.state.phase is ToggleReading);
            settled(scene) == Scene {
                state: CaptureState {
                    is_grabbed: remote,
                    phase: CapturePhase::Fetching,
                    ..scene.state
                },
                remote,
                sent: scene.sent,
            }
        }),
{
    let s1 = obeyed(scene);
    let s2 = obeyed(s1);
    let s3 = obeyed(s2);
    let s4 = obeyed(s3);
    let s5 = obeyed(s4);
    lemma_settle_unfold(scene);
    lemma_settle_unfold(s1);
    lemma_settle_unfold(s2);
    lemma_settle_unfold(s3);
    lemma_settle_unfold(s4);
    lemma_settle_unfold(s5);
}

proof fn lemma_settle_unfold(scene: Scene)
    ensures
        well_formed(scene.state) ==> settled(scene) == (if scene.state.phase is Fetching
            || scene.state.phase is Stopped {
            scene
        } else {
            settled(obeyed(scene))
        }),
{
    if well_formed(scene.state) {
        lemma_step_well_formed(
            scene.state,
            match pending(scene.state) {
                CaptureAction::LoadMode => CaptureInput::Mode(scene.remote),
                _ => CaptureInput::Done,
            },
        );
    }
}

proof fn lemma_settle_batch(scene: Scene, from: int)
    requires
        0 <= from <= scene.state.batch.len(),
        scene.state.toggle_requested <==> exists|i: int|
            0 <= i < from && toggle_press(#[trigger] scene.state.batch[i]),
    ensures
        ({
            let batch = scene.state.batch;
            let remote = scene.remote != has_toggle(batch);
            settled(Scene { state: resume(scene.state, from), ..scene }) == Scene {
                state: CaptureState {
                    batch,
                    next: batch.len() as int,
                    toggle_requested: has_toggle(batch),
                    is_grabbed: remote,
                    phase: CapturePhase::Fetching,
                },
                remote,
                sent: scene.sent + forwarded(batch, from, |i: int| scene.remote),
            }
        }),
    decreases scene.state.batch.len() - from,
{
    let batch = scene.state.batch;
    let readings = |i: int| scene.remote;
    lemma_skip(batch, from);
    let r = resume(scene.state, from);
    let here = Scene { state: r, ..scene };
    lemma_forwarded_skip(batch, from, r.next, readings);
    if r.next > from {
        assert(toggle_press(batch[from]));
    }
    assert(r.toggle_requested <==> exists|i: int|
        0 <= i < r.next && toggle_press(#[trigger] batch[i])) by {
        if exists|i: int| 0 <= i < r.next && toggle_press(#[trigger] batch[i]) {
            let i = choose|i: int| 0 <= i < r.next && toggle_press(#[trigger] batch[i]);
            assert(i < from || from <= i);
        }
    }
    if r.next < batch.len() {
        lemma_skip(batch, r.next + 1);
        lemma_step_well_formed(r, CaptureInput::Mode(scene.remote));
        let read = obeyed(here);
        lemma_settle_unfold(here);
        assert(!toggle_press(batch[r.next]));
        match read.state.phase {
            CapturePhase::Sending(event) => {
                let sent = Scene { sent: scene.sent.push(event), ..read };
                lemma_settle_unfold(read);
                lemma_settle_batch(sent, r.next + 1);
                assert(obeyed(read) == Scene { state: resume(sent.state, r.next + 1), ..sent });
                assert(scene.sent.push(event) + forwarded(batch, r.next + 1, readings)
                    =~= scene.sent + forwarded(batch, r.next, readings));
            },
            _ => {
                lemma_settle_batch(here, r.next + 1);
                assert(read == Scene { state: resume(here.state, r.next + 1), ..here });
            },
        }
    } else {
        assert(forwarded(batch, r.next, readings) =~= seq![]);
        assert(scene.sent + forwarded(batch, from, readings) =~= scene.sent);
        lemma_settle_tail(here);
    }
}

/// Scroll Lock toggles the mode, and the grab follows it: when a batch has been
/// dealt with, the mode has changed exactly if the toggle key was pressed in the
/// batch, and the device is grabbed exactly if the mode is remote. The events of
/// the batch went out under the mode that was in force before.
pub proof fn law_round(s: CaptureState, batch: Seq<RawEvent>, remote: bool)
    requires
        well_formed(s),
        s.phase is Fetching,
    ensures
        ({
            let end = settled(
                Scene {
                    state: advanced(s, CaptureInput::Fetched(batch)),
                    remote,
                    sent: Seq::empty(),
                },
            );
            &&& end.remote == (remote != has_toggle(batch))
            &&& end.state.is_grabbed == end.remote
            &&& end.state.phase is Fetching
            &&& end.sent == forwarded(batch, 0, |i: int| remote)
            &&& well_formed(end.state)
        }),
{
    let start = Scene {
        state: CaptureState { batch, toggle_requested: false, ..s },
        remote,
        sent: Seq::empty(),
    };
    lemma_settle_batch(start, 0);
    assert(Seq::<InputEvent>::empty() + forwarded(batch, 0, |i: int| remote) =~= forwarded(
        batch,
        0,
        |i: int| remote,
    ));
}

/// Two toggles cancel out: after two batches with a press of the toggle key in
/// each, the mode is the one before, and the device is grabbed exactly in remote
/// mode.
pub proof fn law_toggle_twice(
    s: CaptureState,
    first: Seq<RawEvent>,
    second: Seq<RawEvent>,
    remote: bool,
)
    requires
        well_formed(s),
        s.phase is Fetching,
        has_toggle(first),
        has_toggle(second),
    ensures
        ({
            let middle = settled(
                Scene {
                    state: advanced(s, CaptureInput::Fetched(first)),
                    remote,
                    sent: Seq::empty(),
                },
            );
            let end = settled(
                Scene {
                    state: advanced(middle.state, CaptureInput::Fetched(second)),
                    remote: middle.remote,
                    sent: Seq::empty(),
                },
            );
            end.remote == remote && end.state.is_grabbed == remote
        }),
{
    law_round(s, first, remote);
    let middle = settled(
        Scene { state: advanced(s, CaptureInput::Fetched(first)), remote, sent: Seq::empty() },
    );
    law_round(middle.state, second, middle.remote);
}

/// A device that can no longer be read is given back if it was grabbed, and is then
/// done with.
pub proof fn law_release_on_exit(s: CaptureState, remote: bool)
    requires
        well_formed(s),
        s.phase is Fetching,
    ensures
        ({
            let failed = advanced(s, CaptureInput::ReadFailed);
            let end = settled(Scene { state: failed, remote, sent: Seq::empty() });
            &&& pending(failed) == (if s.is_grabbed {
                CaptureAction::Ungrab
            } else {
                CaptureAction::Stop
            })
            &&& pending(end.state) == CaptureAction::Stop
            &&& !end.state.is_grabbed
            &&& end.sent == Seq::<InputEvent>::empty()
        }),
{
    let failed = Scene {
        state: advanced(s, CaptureInput::ReadFailed),
        remote,
        sent: Seq::empty(),
    };
    lemma_settle_unfold(failed);
    lemma_settle_unfold(obeyed(failed));
}

/// Only the press of Scroll Lock is the toggle: a key event with the code 70 and the value 1,
/// and nothing else.
pub proof fn law_toggle_is_scroll_lock(event: RawEvent)
    ensures
        toggle_press(event) <==> event.event_type == 1 && event.code == 70 && event.value == 1,
{
}

/// What is to be done for a batch of events, until the next ones are to be fetched.
pub open spec fn round(s: CaptureState, batch: Seq<RawEvent>, remote: bool) -> Scene {
    settled(
        Scene {
            state: advanced(s, CaptureInput::Fetched(batch)),
            remote,
            sent: Seq::empty(),
        },
    )
}

/// Nothing but Scroll Lock changes the mode: after a batch in which no event is a key event
/// with the code 70 and the value 1, the mode is the one before it. After a batch with such
/// an event, wherever it stands and however many there are, it is the other one. Either way
/// the device is then grabbed exactly in remote mode.
pub proof fn law_only_scroll_lock_toggles(s: CaptureState, batch: Seq<RawEvent>, remote: bool)
    requires
        well_formed(s),
        s.phase is Fetching,
    ensures
        (forall|i: int|
            0 <= i < batch.len() ==> !((#[trigger] batch[i]).event_type == 1 && batch[i].code == 70
                && batch[i].value == 1)) ==> round(s, batch, remote).remote == remote,
        (exists|i: int|
            0 <= i < batch.len() && (#[trigger] batch[i]).event_type == 1 && batch[i].code == 70
                && batch[i].value == 1) ==> round(s, batch, remote).remote == !remote,
        round(s, batch, remote).state.is_grabbed == round(s, batch, remote).remote,
        round(s, batch, remote).state.phase is Fetching,
{
    law_round(s, batch, remote);
    if exists|i: int|
        0 <= i < batch.len() && (#[trigger] batch[i]).event_type == 1 && batch[i].code == 70
            && batch[i].value == 1 {
        let i = choose|i: int|
            0 <= i < batch.len() && (#[trigger] batch[i]).event_type == 1 && batch[i].code == 70
                && batch[i].value == 1;
        assert(toggle_press(batch[i]));
        assert(has_toggle(batch));
    }
}

proof fn lemma_forwarded_push(
    batch: Seq<RawEvent>,
    event: RawEvent,
    from: int,
    readings: spec_fn(int) -> bool,
)
    requires
        0 <= from <= batch.len(),
    ensures
        forwarded(batch.push(event), from, readings) == forwarded(batch, from, readings) + (
        match converted(event) {
            Some(shared) if !toggle_press(event) && readings(batch.len() as int) => seq![shared],
            _ => seq![],
        }),
    decreases batch.len() - from,
{
    let longer = batch.push(event);
    if from < batch.len() {
        lemma_forwarded_push(batch, event, from + 1, readings);
        assert(longer[from] == batch[from]);
        assert(forwarded(longer, from, readings) =~= forwarded(batch, from, readings) + (
        match converted(event) {
            Some(shared) if !toggle_press(event) && readings(batch.len() as int) => seq![shared],
            _ => seq![],
        }));
    } else {
        assert(longer[from] == event);
        assert(forwarded(longer, from + 1, readings) =~= seq![]);
        assert(forwarded(batch, from, readings) =~= seq![]);
        assert(forwarded(longer, from, readings) =~= forwarded(batch, from, readings) + (
        match converted(event) {
            Some(shared) if !toggle_press(event) && readings(batch.len() as int) => seq![shared],
            _ => seq![],
        }));
    }
}

/// What is sent grows event by event: nothing is sent for no events; in remote mode one more
/// event at the end of a batch adds its conversion at the end, if it has one, unless it is
/// the press of Scroll Lock; and it changes nothing of what was sent before. In local mode
/// nothing is sent, whatever the events are.
pub proof fn law_round_sends_each_event(
    s: CaptureState,
    batch: Seq<RawEvent>,
    event: RawEvent,
    remote: bool,
)
    requires
        well_formed(s),
        s.phase is Fetching,
    ensures
        round(s, Seq::empty(), remote).sent == Seq::<InputEvent>::empty(),
        !remote ==> round(s, batch, remote).sent == Seq::<InputEvent>::empty(),
        remote && converted(event) is Some && !(event.event_type == 1 && event.code == 70
            && event.value == 1) ==> round(s, batch.push(event), remote).sent == round(
            s,
            batch,
            remote,
        ).sent.push(converted(event)->0),
        converted(event) is None || (event.event_type == 1 && event.code == 70 && event.value == 1)
            ==> round(s, batch.push(event), remote).sent == round(s, batch, remote).sent,
{
    let readings = |i: int| remote;
    law_round(s, Seq::empty(), remote);
    law_round(s, batch, remote);
    law_round(s, batch.push(event), remote);
    lemma_forwarded_push(batch, event, 0, readings);
    assert(forwarded(Seq::empty(), 0, readings) =~= seq![]);
    if !remote {
        law_local_mode_is_silent(batch, 0, readings);
    }
    let before = round(s, batch, remote).sent;
    if converted(event) is Some {
        assert(before + seq![converted(event)->0] =~= before.push(converted(event)->0));
    }
    assert(before + Seq::<InputEvent>::empty() =~= before);
}

/// Each event is judged by the mode that is read for it: in remote mode its conversion is to
/// be sent, if it has one; in local mode, or without a conversion, the next event that is no
/// press of Scroll Lock is due, or the batch is through.
pub proof fn law_mode_decides_for_each_event(s: CaptureState, remote: bool)
    requires
        well_formed(s),
        s.phase is Filtering,
    ensures
        ({
            let after = advanced(s, CaptureInput::Mode(remote));
            let event = s.batch[s.next];
            &&& pending(s) == CaptureAction::LoadMode
            &&& remote && converted(event) is Some ==> pending(after) == CaptureAction::Send(
                converted(event)->0,
            ) && after.next == s.next
            &&& !remote || converted(event) is None ==> !(pending(after) is Send) && s.next
                < after.next <= s.batch.len()
            &&& after.batch == s.batch
            &&& after.is_grabbed == s.is_grabbed
            &&& forall|i: int|
                s.next < i < after.next ==> (#[trigger] s.batch[i]).event_type == 1
                    && s.batch[i].code == 70 && s.batch[i].value == 1
            &&& after.phase is Filtering ==> after.next < s.batch.len() && !(
            s.batch[after.next].event_type == 1 && s.batch[after.next].code == 70
                && s.batch[after.next].value == 1)
            &&& !(after.phase is Filtering) && !(after.phase is Sending) ==> after.next
                == s.batch.len()
        }),
{
    lemma_skip(s.batch, s.next + 1);
}

/// Whether an event could be sent does not matter: the capture goes on with the next one.
pub proof fn law_sending_may_fail(s: CaptureState)
    requires
        well_formed(s),
        s.phase is Sending,
    ensures
        advanced(s, CaptureInput::Failed) == advanced(s, CaptureInput::Done),
        advanced(s, CaptureInput::Done).next > s.next,
        pending(s) == CaptureAction::Send(s.phase->Sending_0),
        !(pending(advanced(s, CaptureInput::Done)) is Send),
        advanced(s, CaptureInput::Done).is_grabbed == s.is_grabbed,
{
    lemma_skip(s.batch, s.next + 1);
}

/// A device counts as grabbed exactly while it is: that changes only when it was to be
/// grabbed or given back and that was done.
pub proof fn law_grab_is_what_was_done(s: CaptureState, input: CaptureInput)
    requires
        well_formed(s),
    ensures
        advanced(s, input).is_grabbed == (if input is Done && pending(s) == CaptureAction::Grab {
            true
        } else if input is Done && pending(s) == CaptureAction::Ungrab {
            false
        } else {
            s.is_grabbed
        }),
{
}

/// The mode is written only for a toggle, and then to the opposite of what was read.
pub proof fn law_mode_is_written_inverted(s: CaptureState, input: CaptureInput)
    requires
        well_formed(s),
    ensures
        s.phase is ToggleReading ==> pending(s) == CaptureAction::LoadMode,
        s.phase is ToggleReading && input is Mode ==> pending(advanced(s, input))
            == CaptureAction::StoreMode(!input->Mode_0),
        pending(advanced(s, input)) is StoreMode ==> (s.phase is ToggleReading && input is Mode)
            || advanced(s, input) == s,
{
}

/// A device is asked for in remote mode and given back in local mode, whether it was toggled
/// itself or another device was; where it already is as it should be, neither is asked for.
pub proof fn law_grab_follows_mode(s: CaptureState, remote: bool)
    requires
        well_formed(s),
    ensures
        s.phase == CapturePhase::ToggleWriting(remote) ==> pending(s) == CaptureAction::StoreMode(
            remote,
        ) && pending(advanced(s, CaptureInput::Done)) == (if remote && !s.is_grabbed {
            CaptureAction::Grab
        } else if !remote && s.is_grabbed {
            CaptureAction::Ungrab
        } else {
            CaptureAction::LoadMode
        }),
        s.phase is SyncReading ==> pending(s) == CaptureAction::LoadMode && pending(
            advanced(s, CaptureInput::Mode(remote)),
        ) == (if remote && !s.is_grabbed {
            CaptureAction::Grab
        } else if !remote && s.is_grabbed {
            CaptureAction::Ungrab
        } else {
            CaptureAction::Fetch
        }),
        s.phase is ToggleGrabbing || s.phase is ToggleUngrabbing ==> forall|input: CaptureInput|
            input is Done || input is Failed ==> #[trigger] pending(advanced(s, input))
                == CaptureAction::LoadMode && advanced(s, input).phase is SyncReading,
        s.phase is SyncGrabbing || s.phase is SyncUngrabbing ==> forall|input: CaptureInput|
            input is Done || input is Failed ==> #[trigger] pending(advanced(s, input))
                == CaptureAction::Fetch,
{
}

/// A device that has nothing to report is read again after a pause, and a device that cannot
/// be read is not read again.
pub proof fn law_reading_goes_on(s: CaptureState)
    requires
        well_formed(s),
        s.phase is Fetching,
    ensures
        pending(s) == CaptureAction::Fetch,
        pending(advanced(s, CaptureInput::WouldBlock)) == CaptureAction::Pause,
        advanced(advanced(s, CaptureInput::WouldBlock), CaptureInput::Done) == s,
        pending(advanced(s, CaptureInput::ReadFailed)) == (if s.is_grabbed {
            CaptureAction::Ungrab
        } else {
            CaptureAction::Stop
        }),
        s.is_grabbed ==> forall|input: CaptureInput|
            input is Done || input is Failed ==> #[trigger] pending(
                advanced(advanced(s, CaptureInput::ReadFailed), input),
            ) == CaptureAction::Stop,
        crate::capture::RETRY_MILLIS == 10,
{
}

/// A device that is done with stays so, and an answer that was not asked for changes nothing.
pub proof fn law_only_answers_count(s: CaptureState, input: CaptureInput)
    requires
        well_formed(s),
        match pending(s) {
            CaptureAction::Fetch => !(input is Fetched || input is WouldBlock
                || input is ReadFailed),
            CaptureAction::LoadMode => !(input is Mode),
            CaptureAction::Pause | CaptureAction::StoreMode(_) => !(input is Done),
            CaptureAction::Send(_) | CaptureAction::Grab | CaptureAction::Ungrab => !(
            input is Done || input is Failed),
            CaptureAction::Stop => true,
        },
    ensures
        advanced(s, input) == s,
{
}

/// The devices that are captured are those that were recognised, in order: a device that was
/// opened later adds itself at the end if it is usable, and nothing otherwise.
pub proof fn law_usable_devices<D>(probes: Seq<Probe<D>>, probe: Probe<D>)
    ensures
        usable_devices(Seq::<Probe<D>>::empty()) == Seq::<D>::empty(),
        probe.usable ==> usable_devices(probes.push(probe)) == usable_devices(probes).push(
            probe.device,
        ),
        !probe.usable ==> usable_devices(probes.push(probe)) == usable_devices(probes),
{
    reveal(Seq::filter);
    let usable = |p: Probe<D>| p.usable;
    let device_of = |p: Probe<D>| p.device;
    assert(probes.push(probe).drop_last() =~= probes);
    assert(usable_devices(Seq::<Probe<D>>::empty()) =~= seq![]);
    if probe.usable {
        assert(probes.filter(usable).push(probe).map_values(device_of) =~= probes.filter(
            usable,
        ).map_values(device_of).push(probe.device));
    }
}

/// What is fetched is taken in whole: every event of the batch, in order, and whatever else is
/// reported as it was.
pub proof fn law_reports_are_taken_as_they_are(event: CaptureEvent)
    ensures
        event matches CaptureEvent::Fetched(events) ==> event@ == CaptureInput::Fetched(events@),
        event matches CaptureEvent::Mode(remote) ==> event@ == CaptureInput::Mode(remote),
        event is WouldBlock ==> event@ is WouldBlock,
        event is ReadFailed ==> event@ is ReadFailed,
        event is Done ==> event@ is Done,
        event is Failed ==> event@ is Failed,
{
}

} // verus!
