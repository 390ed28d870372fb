//! Input capture from local devices.
//!
//! Devices are found, grabbed and released here, and what they report is filtered
//! and forwarded. Scroll Lock toggles between local mode, in which input stays on
//! this machine, and remote mode, in which it goes to the clients.
use crate::codes::{EV_KEY, KEY_SCROLLLOCK};
use crate::convert::{convert_event, converted, RawEvent};
use crate::events::InputEvent;
use crate::kernel::{event_kind, EventKind};
use crate::text::starts_with;
use vstd::prelude::*;

verus! {

/// The hotkey that toggles between local and remote mode.
pub const TOGGLE_KEY: u16 = KEY_SCROLLLOCK;

/// How long to wait before a device that had nothing to read is read again.
pub const RETRY_MILLIS: u64 = 10;

/// Why input cannot be captured.
#[derive(Debug, Clone, Copy, PartialEq, Eq, Structural)]
pub enum CaptureError {
    /// There is no directory of input devices.
    NoInputDirectory,
    /// There is no device to capture from.
    NoDevices,
}

impl CaptureError {
    /// The error in words.
    pub fn text(&self) -> (r: String)
        ensures
            r@ == (match *self {
                CaptureError::NoInputDirectory => "/dev/input directory not found"@,
                CaptureError::NoDevices => "No devices to capture from. Add devices first."@,
            }),
    {
        match self {
            CaptureError::NoInputDirectory => "/dev/input directory not found".to_owned(),
            CaptureError::NoDevices => "No devices to capture from. Add devices first.".to_owned(),
        }
    }
}

/// A device that was opened while looking for input devices.
pub struct Probe<D> {
    pub device: D,
    /// Whether it is a keyboard or a mouse.
    pub usable: bool,
}

/// The devices of the usable probes, in the order in which they were opened.
pub open spec fn usable_devices<D>(probes: Seq<Probe<D>>) -> Seq<D> {
    probes.filter(|p: Probe<D>| p.usable).map_values(|p: Probe<D>| p.device)
}

/// Whether an entry of the input directory is looked at: its name is text and
/// begins with "event".
pub fn is_event_node(file_name: Option<&str>) -> (r: bool)
    ensures
        r == (file_name matches Some(name) && "event"@.is_prefix_of(name@)),
{
    match file_name {
        Some(name) => starts_with(name, "event"),
        None => false,
    }
}

/// The devices to capture from, and the mode in which capturing begins.
pub struct InputCapture<D> {
    devices: Vec<D>,
    remote_mode: bool,
}

impl<D> InputCapture<D> {
    /// The devices to capture from.
    pub closed spec fn devices(&self) -> Seq<D> {
        self.devices@
    }

    /// Whether capturing begins in remote mode.
    pub closed spec fn remote_mode(&self) -> bool {
        self.remote_mode
    }

    /// Creates a capture without devices, in local mode.
    pub fn new() -> (r: Result<Self, CaptureError>)
        ensures
            r matches Ok(capture) && capture.devices() == Seq::<D>::empty()
                && !capture.remote_mode(),
    {
        Ok(InputCapture { devices: Vec::new(), remote_mode: false })
    }

    /// Adds a device to capture from.
    pub fn add_device(&mut self, device: D)
        ensures
            final(self).devices() == old(self).devices().push(device),
            final(self).remote_mode() == old(self).remote_mode(),
    {
        self.devices.push(device);
    }

    /// Adds every keyboard and mouse among the devices that were opened, unless the
    /// input directory is not there.
    pub fn add_all_devices(
        &mut self,
        directory_exists: bool,
        probes: Vec<Probe<D>>,
    ) -> (r: Result<(), CaptureError>)
        ensures
            r == (if directory_exists {
                Ok::<(), CaptureError>(())
            } else {
                Err(CaptureError::NoInputDirectory)
            }),
            final(self).devices() == (if directory_exists {
                old(self).devices() + usable_devices(probes@)
            } else {
                old(self).devices()
            }),
            final(self).remote_mode() == old(self).remote_mode(),
    {
        if !directory_exists {
            return Err(CaptureError::NoInputDirectory);
        }
        let ghost before = self.devices@;
        let ghost usable = |p: Probe<D>| p.usable;
        let ghost device_of = |p: Probe<D>| p.device;
        let ghost all = probes@;
        for probe in it: probes
            invariant
                it.seq() == all,
                usable == (|p: Probe<D>| p.usable),
                device_of == (|p: Probe<D>| p.device),
                self.devices@ == before + all.take(it.index()).filter(usable).map_values(device_of),
                self.remote_mode == old(self).remote_mode,
        {
            proof {
                assert(all.take(it.index() + 1).drop_last() =~= all.take(it.index()));
                reveal(Seq::filter);
            }
            if probe.usable {
                self.devices.push(probe.device);
                proof {
                    assert(all.take(it.index()).filter(usable).push(probe).map_values(device_of)
                        =~= all.take(it.index()).filter(usable).map_values(device_of).push(
                        probe.device,
                    ));
                }
            }
        }
        assert(all.take(all.len() as int) =~= all);
        Ok(())
    }

    /// Starts capturing: hands out the devices, and the mode in which to begin.
    pub fn run(self) -> (r: Result<(Vec<D>, bool), CaptureError>)
        ensures
            self.devices().len() == 0 ==> r == Err::<(Vec<D>, bool), CaptureError>(
                CaptureError::NoDevices,
            ),
            self.devices().len() != 0 ==> (r matches Ok(started) && started.0@ == self.devices()
                && started.1 == self.remote_mode()),
    {
        if self.devices.is_empty() {
            Err(CaptureError::NoDevices)
        } else {
            Ok((self.devices, self.remote_mode))
        }
    }
}

/// The press of the toggle key.
pub open spec fn toggle_press(event: RawEvent) -> bool {
    event.event_type == EV_KEY && event.code == TOGGLE_KEY && event.value == 1
}

/// Checks if an event is the press of the toggle key.
pub fn is_toggle_press(event: &RawEvent) -> (r: bool)
    ensures
        r == toggle_press(*event),
        r == (event.event_type == 1 && event.code == 70 && event.value == 1),
{
    match event_kind(event.event_type, event.code) {
        EventKind::Key(code) => code == TOGGLE_KEY && event.value == 1,
        _ => false,
    }
}

/// What is to be done next for a captured device.
#[derive(Debug, Clone, Copy, PartialEq, Eq, Structural)]
pub enum CaptureAction {
    /// Read the events that the device has.
    Fetch,
    /// Wait for `RETRY_MILLIS`.
    Pause,
    /// Read the mode that all devices share.
    LoadMode,
    /// Send an event to the clients.
    Send(InputEvent),
    /// Set the mode that all devices share.
    StoreMode(bool),
    /// Take the device for this machine's exclusive use.
    Grab,
    /// Give the device back.
    Ungrab,
    /// Nothing more: the device is done with.
    Stop,
}

/// What came of the last action.
#[derive(Debug)]
pub enum CaptureEvent {
    /// The device reported these events.
    Fetched(Vec<RawEvent>),
    /// The device had nothing to report.
    WouldBlock,
    /// The device cannot be read.
    ReadFailed,
    /// The mode was read: whether it is remote.
    Mode(bool),
    /// The action was carried out.
    Done,
    /// The action could not be carried out.
    Failed,
}

/// What came of the last action, by value.
pub enum CaptureInput {
    Fetched(Seq<RawEvent>),
    WouldBlock,
    ReadFailed,
    Mode(bool),
    Done,
    Failed,
}

impl View for CaptureEvent {
    type V = CaptureInput;

    open spec fn view(&self) -> CaptureInput {
        match *self {
            CaptureEvent::Fetched(events) => CaptureInput::Fetched(events@),
            CaptureEvent::WouldBlock => CaptureInput::WouldBlock,
            CaptureEvent::ReadFailed => CaptureInput::ReadFailed,
            CaptureEvent::Mode(remote) => CaptureInput::Mode(remote),
            CaptureEvent::Done => CaptureInput::Done,
            CaptureEvent::Failed => CaptureInput::Failed,
        }
    }
}

/// How far the capture of a device has come.
#[derive(Debug, Clone, Copy, PartialEq, Eq, Structural)]
pub enum CapturePhase {
    Fetching,
    Pausing,
    /// The mode is needed for the next event of the batch.
    Filtering,
    Sending(InputEvent),
    /// The mode is needed because the toggle key was pressed.
    ToggleReading,
    ToggleWriting(bool),
    ToggleGrabbing,
    ToggleUngrabbing,
    /// The mode is needed to see whether another device was toggled.
    SyncReading,
    SyncGrabbing,
    SyncUngrabbing,
    /// The device is given back before it is done with.
    Releasing,
    Stopped,
}

/// The capture of a device, by value.
#[verifier::ext_equal]
pub struct CaptureState {
    /// The events that were fetched last.
    pub batch: Seq<RawEvent>,
    /// The events of the batch that are dealt with.
    pub next: int,
    /// Whether the toggle key was pressed among them.
    pub toggle_requested: bool,
    pub is_grabbed: bool,
    pub phase: CapturePhase,
}

/// The first position from `from` on that is no press of the toggle key.
pub open spec fn skip_toggles(batch: Seq<RawEvent>, from: int) -> int
    decreases batch.len() - from,
{
    if 0 <= from < batch.len() && toggle_press(batch[from]) {
        skip_toggles(batch, from + 1)
    } else {
        from
    }
}

/// Goes on with the batch from `from` on. After the batch, the mode is toggled if
/// the toggle key was pressed in it, and the grab is brought in line with the mode.
pub open spec fn resume(s: CaptureState, from: int) -> CaptureState {
    let next = skip_toggles(s.batch, from);
    let toggle_requested = s.toggle_requested || next > from;
    CaptureState {
        next,
        toggle_requested,
        phase: if next < s.batch.len() {
            CapturePhase::Filtering
        } else if toggle_requested {
            CapturePhase::ToggleReading
        } else {
            CapturePhase::SyncReading
        },
        ..s
    }
}

/// What is to be done next.
pub open spec fn pending(s: CaptureState) -> CaptureAction {
    match s.phase {
        CapturePhase::Fetching => CaptureAction::Fetch,
        CapturePhase::Pausing => CaptureAction::Pause,
        CapturePhase::Filtering => CaptureAction::LoadMode,
        CapturePhase::Sending(event) => CaptureAction::Send(event),
        CapturePhase::ToggleReading => CaptureAction::LoadMode,
        CapturePhase::ToggleWriting(remote) => CaptureAction::StoreMode(remote),
        CapturePhase::ToggleGrabbing => CaptureAction::Grab,
        CapturePhase::ToggleUngrabbing => CaptureAction::Ungrab,
        CapturePhase::SyncReading => CaptureAction::LoadMode,
        CapturePhase::SyncGrabbing => CaptureAction::Grab,
        CapturePhase::SyncUngrabbing => CaptureAction::Ungrab,
        CapturePhase::Releasing => CaptureAction::Ungrab,
        CapturePhase::Stopped => CaptureAction::Stop,
    }
}

/// How the capture of a device goes on. An input that does not answer the pending
/// action changes nothing, so that the action is asked for again.
pub open spec fn advanced(s: CaptureState, input: CaptureInput) -> CaptureState {
    match (s.phase, input) {
        (CapturePhase::Fetching, CaptureInput::Fetched(batch)) => resume(
            CaptureState { batch, toggle_requested: false, ..s },
            0,
        ),
        (CapturePhase::Fetching, CaptureInput::WouldBlock) => CaptureState {
            phase: CapturePhase::Pausing,
            ..s
        },
        (CapturePhase::Fetching, CaptureInput::ReadFailed) => CaptureState {
            phase: if s.is_grabbed {
                CapturePhase::Releasing
            } else {
                CapturePhase::Stopped
            },
            ..s
        },
        (CapturePhase::Pausing, CaptureInput::Done) => CaptureState {
            phase: CapturePhase::Fetching,
            ..s
        },
        (CapturePhase::Filtering, CaptureInput::Mode(remote)) => match converted(s.batch[s.next]) {
            Some(event) if remote => CaptureState { phase: CapturePhase::Sending(event), ..s },
            _ => resume(s, s.next + 1),
        },
        (CapturePhase::Sending(_), CaptureInput::Done | CaptureInput::Failed) => resume(
            s,
            s.next + 1,
        ),
        (CapturePhase::ToggleReading, CaptureInput::Mode(remote)) => CaptureState {
            phase: CapturePhase::ToggleWriting(!remote),
            ..s
        },
        (CapturePhase::ToggleWriting(remote), CaptureInput::Done) => CaptureState {
            phase: if remote && !s.is_grabbed {
                CapturePhase::ToggleGrabbing
            } else if !remote && s.is_grabbed {
                CapturePhase::ToggleUngrabbing
            } else {
                CapturePhase::SyncReading
            },
            ..s
        },
        (CapturePhase::ToggleGrabbing, CaptureInput::Done | CaptureInput::Failed) => CaptureState {
            phase: CapturePhase::SyncReading,
            is_grabbed: input is Done,
            ..s
        },
        (
            CapturePhase::ToggleUngrabbing,
            CaptureInput::Done | CaptureInput::Failed,
        ) => CaptureState {
            phase: CapturePhase::SyncReading,
            is_grabbed: input is Failed,
            ..s
        },
        (CapturePhase::SyncReading, CaptureInput::Mode(remote)) => CaptureState {
            phase: if remote && !s.is_grabbed {
                CapturePhase::SyncGrabbing
            } else if !remote && s.is_grabbed {
                CapturePhase::SyncUngrabbing
            } else {
                CapturePhase::Fetching
            },
            ..s
        },
        (CapturePhase::SyncGrabbing, CaptureInput::Done | CaptureInput::Failed) => CaptureState {
            phase: CapturePhase::Fetching,
            is_grabbed: input is Done,
            ..s
        },
        (CapturePhase::SyncUngrabbing, CaptureInput::Done | CaptureInput::Failed) => CaptureState {
            phase: CapturePhase::Fetching,
            is_grabbed: input is Failed,
            ..s
        },
        (CapturePhase::Releasing, CaptureInput::Done | CaptureInput::Failed) => CaptureState {
            phase: CapturePhase::Stopped,
            is_grabbed: input is Failed,
            ..s
        },
        _ => s,
    }
}

/// The capture of a single device.
#[derive(Debug)]
pub struct DeviceCapture {
    batch: Vec<RawEvent>,
    next: usize,
    toggle_requested: bool,
    is_grabbed: bool,
    phase: CapturePhase,
}

impl View for DeviceCapture {
    type V = CaptureState;

    closed spec fn view(&self) -> CaptureState {
        CaptureState {
            batch: self.batch@,
            next: self.next as int,
            toggle_requested: self.toggle_requested,
            is_grabbed: self.is_grabbed,
            phase: self.phase,
        }
    }
}

/// A capture counts within its batch, and asks for the mode only for an event that
/// is there. A device is grabbed only where it was not, and given back only where
/// it was grabbed.
pub open spec fn well_formed(s: CaptureState) -> bool {
    &&& 0 <= s.next <= s.batch.len()
    &&& s.phase is Filtering || s.phase is Sending ==> s.next < s.batch.len()
    &&& s.phase is ToggleGrabbing || s.phase is SyncGrabbing ==> !s.is_grabbed
    &&& s.phase is ToggleUngrabbing || s.phase is SyncUngrabbing || s.phase is Releasing
        ==> s.is_grabbed
}

impl DeviceCapture {
    /// Begins with a device that is not grabbed: its events are fetched first.
    pub fn new() -> (r: Self)
        ensures
            r@ == (CaptureState {
                batch: Seq::empty(),
                next: 0,
                toggle_requested: false,
                is_grabbed: false,
                phase: CapturePhase::Fetching,
            }),
            well_formed(r@),
    {
        DeviceCapture {
            batch: Vec::new(),
            next: 0,
            toggle_requested: false,
            is_grabbed: false,
            phase: CapturePhase::Fetching,
        }
    }

    /// What is to be done next.
    pub fn action(&self) -> (r: CaptureAction)
        ensures
            r == pending(self@),
    {
        match self.phase {
            CapturePhase::Fetching => CaptureAction::Fetch,
            CapturePhase::Pausing => CaptureAction::Pause,
            CapturePhase::Filtering => CaptureAction::LoadMode,
            CapturePhase::Sending(event) => CaptureAction::Send(event),
            CapturePhase::ToggleReading => CaptureAction::LoadMode,
            CapturePhase::ToggleWriting(remote) => CaptureAction::StoreMode(remote),
            CapturePhase::ToggleGrabbing => CaptureAction::Grab,
            CapturePhase::ToggleUngrabbing => CaptureAction::Ungrab,
            CapturePhase::SyncReading => CaptureAction::LoadMode,
            CapturePhase::SyncGrabbing => CaptureAction::Grab,
            CapturePhase::SyncUngrabbing => CaptureAction::Ungrab,
            CapturePhase::Releasing => CaptureAction::Ungrab,
            CapturePhase::Stopped => CaptureAction::Stop,
        }
    }

    /// Goes on with the batch from `from` on.
    fn resume_at(&mut self, from: usize)
        requires
            from <= old(self)@.batch.len(),
        ensures
            final(self)@ == resume(old(self)@, from as int),
            from <= final(self)@.next <= final(self)@.batch.len(),
    {
        let mut next: usize = from;
        while next < self.batch.len() && is_toggle_press(&self.batch[next])
            invariant
                self@ == old(self)@,
                from <= next <= self.batch@.len(),
                skip_toggles(self.batch@, from as int) == skip_toggles(self.batch@, next as int),
            decreases self.batch@.len() - next,
        {
            next += 1;
        }
        self.toggle_requested = self.toggle_requested || next > from;
        self.next = next;
        self.phase = if next < self.batch.len() {
            CapturePhase::Filtering
        } else if self.toggle_requested {
            CapturePhase::ToggleReading
        } else {
            CapturePhase::SyncReading
        };
    }

    /// Takes in what came of the pending action.
    pub fn advance(&mut self, event: CaptureEvent)
        requires
            well_formed(old(self)@),
        ensures
            final(self)@ == advanced(old(self)@, event@),
            well_formed(final(self)@),
    {
        match (self.phase, event) {
            (CapturePhase::Fetching, CaptureEvent::Fetched(batch)) => {
                self.batch = batch;
                self.toggle_requested = false;
                self.resume_at(0);
            },
            (CapturePhase::Fetching, CaptureEvent::WouldBlock) => {
                self.phase = CapturePhase::Pausing;
            },
            (CapturePhase::Fetching, CaptureEvent::ReadFailed) => {
                self.phase = if self.is_grabbed {
                    CapturePhase::Releasing
                } else {
                    CapturePhase::Stopped
                };
            },
            (CapturePhase::Pausing, CaptureEvent::Done) => {
                self.phase = CapturePhase::Fetching;
            },
            (CapturePhase::Filtering, CaptureEvent::Mode(remote)) => {
                let outcome = if remote {
                    convert_event(&self.batch[self.next])
                } else {
                    None
                };
                match outcome {
                    Some(event) => {
                        self.phase = CapturePhase::Sending(event);
                    },
                    None => {
                        assert(self.next < self.batch.len());
                        let from: usize = self.next + 1;
                        self.resume_at(from);
                    },
                }
            },
            (CapturePhase::Sending(_), CaptureEvent::Done | CaptureEvent::Failed) => {
                assert(self.next < self.batch.len());
                let from: usize = self.next + 1;
                self.resume_at(from);
            },
            (CapturePhase::ToggleReading, CaptureEvent::Mode(remote)) => {
                self.phase = CapturePhase::ToggleWriting(!remote);
            },
            (CapturePhase::ToggleWriting(remote), CaptureEvent::Done) => {
                self.phase = if remote && !self.is_grabbed {
                    CapturePhase::ToggleGrabbing
                } else if !remote && self.is_grabbed {
                    CapturePhase::ToggleUngrabbing
                } else {
                    CapturePhase::SyncReading
                };
            },
            (CapturePhase::ToggleGrabbing, CaptureEvent::Done) => {
                self.is_grabbed = true;
                self.phase = CapturePhase::SyncReading;
            },
            (CapturePhase::ToggleUngrabbing, CaptureEvent::Done) => {
                self.is_grabbed = false;
                self.phase = CapturePhase::SyncReading;
            },
            (
                CapturePhase::ToggleGrabbing | CapturePhase::ToggleUngrabbing,
                CaptureEvent::Failed,
            ) => {
                self.phase = CapturePhase::SyncReading;
            },
            (CapturePhase::SyncReading, CaptureEvent::Mode(remote)) => {
                self.phase = if remote && !self.is_grabbed {
                    CapturePhase::SyncGrabbing
                } else if !remote && self.is_grabbed {
                    CapturePhase::SyncUngrabbing
                } else {
                    CapturePhase::Fetching
                };
            },
            (CapturePhase::SyncGrabbing, CaptureEvent::Done) => {
                self.is_grabbed = true;
                self.phase = CapturePhase::Fetching;
            },
            (CapturePhase::SyncUngrabbing, CaptureEvent::Done) => {
                self.is_grabbed = false;
                self.phase = CapturePhase::Fetching;
            },
            (CapturePhase::SyncGrabbing | CapturePhase::SyncUngrabbing, CaptureEvent::Failed) => {
                self.phase = CapturePhase::Fetching;
            },
            (CapturePhase::Releasing, CaptureEvent::Done) => {
                self.is_grabbed = false;
                self.phase = CapturePhase::Stopped;
            },
            (CapturePhase::Releasing, CaptureEvent::Failed) => {
                self.phase = CapturePhase::Stopped;
            },
            _ => {},
        }
    }
}

} // verus!
