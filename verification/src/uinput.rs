//! Virtual input devices, and what is emitted on them for shared events.
//!
//! The devices are a keyboard and a mouse with relative and absolute axes. `D` is
//! the handle of a device once it was created.
use crate::codes::{
    ABS_X, ABS_Y, BTN_EXTRA, BTN_LEFT, BTN_MIDDLE, BTN_RIGHT, BTN_SIDE, EV_ABS, EV_KEY, EV_REL,
    EV_SYN, REL_HWHEEL, REL_WHEEL, REL_X, REL_Y,
};
use crate::convert::{converted, RawEvent};
use crate::events::{
    InputEvent, KeyboardEvent, MouseButtonEvent, MouseMoveEvent, MouseMovement, MouseWheelEvent,
};
use crate::kernel::{AxisSet, KeySet};
use vstd::prelude::*;

verus! {

/// Why input cannot be injected.
#[derive(Debug, Clone, PartialEq, Eq)]
pub enum InputError {
    InitializationFailed(String),
    DeviceCreationFailed(String),
    EventInjectionFailed(String),
}

/// An event that is emitted on a virtual device.
#[derive(Debug, Clone, Copy, PartialEq, Eq, Structural)]
pub struct DeviceEvent {
    pub event_type: u16,
    pub code: u16,
    pub value: i32,
}

/// The event that closes a group of events.
pub open spec fn sync_event() -> DeviceEvent {
    DeviceEvent { event_type: EV_SYN, code: 0, value: 0 }
}

fn sync() -> (r: DeviceEvent)
    ensures
        r == sync_event(),
{
    DeviceEvent { event_type: EV_SYN, code: 0, value: 0 }
}

/// How an absolute axis of a device is set up.
#[derive(Debug, Clone, Copy, PartialEq, Eq, Structural)]
pub struct AxisSetup {
    pub code: u16,
    pub value: i32,
    pub minimum: i32,
    pub maximum: i32,
    pub fuzz: i32,
    pub flat: i32,
    pub resolution: i32,
}

/// An axis that runs from 0 to `maximum` in single steps.
pub open spec fn axis_up_to(code: u16, maximum: i32) -> AxisSetup {
    AxisSetup { code, value: 0, minimum: 0, maximum, fuzz: 0, flat: 0, resolution: 1 }
}

fn axis_setup(code: u16, maximum: i32) -> (r: AxisSetup)
    ensures
        r == axis_up_to(code, maximum),
{
    AxisSetup { code, value: 0, minimum: 0, maximum, fuzz: 0, flat: 0, resolution: 1 }
}

/// The name of the virtual keyboard.
const KEYBOARD_NAME: &'static str = "COSMIC KVM Virtual Keyboard";

/// The name of the virtual mouse.
const MOUSE_NAME: &'static str = "COSMIC KVM Virtual Mouse";

/// How the virtual keyboard is created.
pub struct KeyboardSetup {
    pub keys: KeySet,
    /// After how many milliseconds a key that is held is repeated.
    pub repeat_delay: u32,
    /// How many milliseconds there are between two repeats.
    pub repeat_period: u32,
}

impl KeyboardSetup {
    /// The codes of the keys of the keyboard.
    pub open spec fn key_codes(&self) -> Set<u16> {
        crate::kernel::key_set_codes(self.keys)
    }

    /// The name of the keyboard.
    pub fn name(&self) -> (r: &'static str)
        ensures
            r@ == "COSMIC KVM Virtual Keyboard"@,
    {
        KEYBOARD_NAME
    }

    /// The keys of the keyboard.
    pub fn keys(&self) -> (r: &evdev::AttributeSetRef<evdev::Key>)
        ensures
            crate::kernel::key_codes(r) == self.key_codes(),
    {
        self.keys.attributes()
    }
}

/// How the virtual mouse is created.
pub struct MouseSetup {
    pub keys: KeySet,
    pub relative: AxisSet,
    pub abs_x: AxisSetup,
    pub abs_y: AxisSetup,
}

impl MouseSetup {
    /// The codes of the buttons of the mouse.
    pub open spec fn key_codes(&self) -> Set<u16> {
        crate::kernel::key_set_codes(self.keys)
    }

    /// The codes of the relative axes of the mouse.
    pub open spec fn axis_codes(&self) -> Set<u16> {
        crate::kernel::axis_set_codes(self.relative)
    }

    /// The name of the mouse.
    pub fn name(&self) -> (r: &'static str)
        ensures
            r@ == "COSMIC KVM Virtual Mouse"@,
    {
        MOUSE_NAME
    }

    /// The buttons of the mouse.
    pub fn keys(&self) -> (r: &evdev::AttributeSetRef<evdev::Key>)
        ensures
            crate::kernel::key_codes(r) == self.key_codes(),
    {
        self.keys.attributes()
    }

    /// The relative axes of the mouse.
    pub fn relative_axes(&self) -> (r: &evdev::AttributeSetRef<evdev::RelativeAxisType>)
        ensures
            crate::kernel::axis_codes(r) == self.axis_codes(),
    {
        self.relative.attributes()
    }
}

/// The device that events are emitted on.
#[derive(Debug, Clone, Copy, PartialEq, Eq, Structural)]
pub enum Target {
    Keyboard,
    Mouse,
}

/// The device that an event is injected through.
pub open spec fn target_of(event: InputEvent) -> Target {
    match event {
        InputEvent::Keyboard(_) => Target::Keyboard,
        _ => Target::Mouse,
    }
}

/// The value that is emitted for a key: the raw value, unless it is missing for a
/// key that is pressed, which is then 1.
pub open spec fn key_value(event: KeyboardEvent) -> i32 {
    if event.raw_value == 0 && event.pressed {
        1
    } else {
        event.raw_value
    }
}

/// What is emitted for a key or a button: its code in 16 bits, with the value.
pub open spec fn key_group(code: u32, value: i32) -> Seq<DeviceEvent> {
    seq![
        DeviceEvent { event_type: EV_KEY, code: (code % 0x1_0000) as u16, value },
        sync_event(),
    ]
}

/// What is emitted for a mouse movement.
pub open spec fn move_group(movement: MouseMovement) -> Seq<DeviceEvent> {
    match movement {
        MouseMovement::Relative { dx, dy } => seq![
            DeviceEvent { event_type: EV_REL, code: REL_X, value: dx },
            DeviceEvent { event_type: EV_REL, code: REL_Y, value: dy },
            sync_event(),
        ],
        MouseMovement::Absolute { x, y } => seq![
            DeviceEvent { event_type: EV_ABS, code: ABS_X, value: x },
            DeviceEvent { event_type: EV_ABS, code: ABS_Y, value: y },
            sync_event(),
        ],
    }
}

/// What is emitted for the wheels: one event for each wheel that turned, the
/// vertical wheel first.
pub open spec fn wheel_group(event: MouseWheelEvent) -> Seq<DeviceEvent> {
    let vertical = if event.dy.moved {
        seq![DeviceEvent { event_type: EV_REL, code: REL_WHEEL, value: event.dy.notches }]
    } else {
        seq![]
    };
    let horizontal = if event.dx.moved {
        seq![DeviceEvent { event_type: EV_REL, code: REL_HWHEEL, value: event.dx.notches }]
    } else {
        seq![]
    };
    vertical + horizontal + seq![sync_event()]
}

/// What is emitted for a shared event.
pub open spec fn emitted(event: InputEvent) -> Seq<DeviceEvent> {
    match event {
        InputEvent::Keyboard(e) => key_group(e.key, key_value(e)),
        InputEvent::MouseMove(e) => move_group(e.movement),
        InputEvent::MouseButton(e) => key_group(
            e.button,
            if e.pressed {
                1
            } else {
                0
            },
        ),
        InputEvent::MouseWheel(e) => wheel_group(e),
    }
}

/// The lower 16 bits of a code.
fn short_code(code: u32) -> (r: u16)
    ensures
        r == (code % 0x1_0000) as u16,
{
    assert(code as u16 == (code % 0x1_0000) as u16) by (bit_vector);
    code as u16
}

/// The codes of the keys of the virtual keyboard.
pub open spec fn keyboard_codes() -> Set<u16> {
    Set::new(|code: u16| 1 <= code <= 256)
}

/// The buttons of the virtual mouse.
pub open spec fn mouse_codes() -> Set<u16> {
    set![BTN_LEFT, BTN_RIGHT, BTN_MIDDLE, BTN_SIDE, BTN_EXTRA]
}

/// The relative axes of the virtual mouse.
pub open spec fn mouse_axes() -> Set<u16> {
    set![REL_X, REL_Y, REL_WHEEL, REL_HWHEEL]
}

/// The virtual devices of this machine.
#[derive(Debug)]
pub struct UInputBackend<D> {
    pub keyboard: Option<D>,
    pub mouse: Option<D>,
    pub screen_width: i32,
    pub screen_height: i32,
}

impl<D> UInputBackend<D> {
    /// Creates a backend without devices, for a screen of 1920 by 1080.
    pub fn new() -> (r: Result<Self, InputError>)
        ensures
            r matches Ok(backend) && backend.keyboard is None && backend.mouse is None
                && backend.screen_width == 1920 && backend.screen_height == 1080,
    {
        Ok(
            UInputBackend {
                keyboard: None,
                mouse: None,
                screen_width: 1920,
                screen_height: 1080,
            },
        )
    }

    /// Sets the screen dimensions for absolute positioning.
    pub fn set_screen_size(&mut self, width: i32, height: i32)
        ensures
            *final(self) == (UInputBackend {
                screen_width: width,
                screen_height: height,
                ..*old(self)
            }),
    {
        self.screen_width = width;
        self.screen_height = height;
    }

    /// How the virtual keyboard is created: with every key code from 1 to 256, and so
    /// that a key that is held is repeated.
    pub fn create_keyboard(&self) -> (r: KeyboardSetup)
        ensures
            is_keyboard_setup(r),
    {
        let mut keys = KeySet::new();
        let mut code: u16 = 1;
        while code <= 256
            invariant
                1 <= code <= 257,
                crate::kernel::key_set_codes(keys) =~= Set::new(|c: u16| 1 <= c < code),
            decreases 257 - code,
        {
            keys.insert(code);
            code += 1;
        }
        assert(crate::kernel::key_set_codes(keys) =~= keyboard_codes());
        KeyboardSetup { keys, repeat_delay: 250, repeat_period: 33 }
    }

    /// How the virtual mouse is created: its buttons, its relative axes, and
    /// absolute axes that span the screen.
    pub fn create_mouse(&self) -> (r: MouseSetup)
        ensures
            is_mouse_setup(r, self.screen_width, self.screen_height),
    {
        let mut keys = KeySet::new();
        keys.insert(BTN_LEFT);
        keys.insert(BTN_RIGHT);
        keys.insert(BTN_MIDDLE);
        keys.insert(BTN_SIDE);
        keys.insert(BTN_EXTRA);
        assert(crate::kernel::key_set_codes(keys) =~= mouse_codes());

        let mut relative = AxisSet::new();
        relative.insert(REL_X);
        relative.insert(REL_Y);
        relative.insert(REL_WHEEL);
        relative.insert(REL_HWHEEL);
        assert(crate::kernel::axis_set_codes(relative) =~= mouse_axes());

        MouseSetup {
            keys,
            relative,
            abs_x: axis_setup(ABS_X, self.screen_width),
            abs_y: axis_setup(ABS_Y, self.screen_height),
        }
    }

    /// Begins to initialise the devices. The first action is to look for the kernel's
    /// uinput device.
    pub fn init(&self) -> (r: Initialization)
        ensures
            r == (Initialization { phase: InitPhase::Looking }),
    {
        Initialization { phase: InitPhase::Looking }
    }

    /// The device that a target stands for.
    pub open spec fn device(&self, target: Target) -> Option<D> {
        match target {
            Target::Keyboard => self.keyboard,
            Target::Mouse => self.mouse,
        }
    }

    /// What is said of a device that was not created.
    pub open spec fn missing_text(target: Target) -> Seq<char> {
        match target {
            Target::Keyboard => "Keyboard not initialized"@,
            Target::Mouse => "Mouse not initialized"@,
        }
    }

    /// The outcome of an injection: what is emitted, or that the device is not there.
    pub open spec fn outcome(
        &self,
        event: InputEvent,
        r: Result<Vec<DeviceEvent>, InputError>,
    ) -> bool {
        if self.device(target_of(event)) is Some {
            r matches Ok(events) && events@ == emitted(event)
        } else {
            r matches Err(InputError::EventInjectionFailed(reason)) && reason@
                == Self::missing_text(target_of(event))
        }
    }

    /// What is emitted on the keyboard for a key.
    pub fn inject_keyboard(&self, event: &KeyboardEvent) -> (r: Result<
        Vec<DeviceEvent>,
        InputError,
    >)
        ensures
            self.outcome(InputEvent::Keyboard(*event), r),
    {
        if self.keyboard.is_none() {
            return Err(InputError::EventInjectionFailed("Keyboard not initialized".to_owned()));
        }
        let value: i32 = if event.raw_value != 0 || !event.pressed {
            event.raw_value
        } else {
            1
        };
        Ok(
            vec![
                DeviceEvent { event_type: EV_KEY, code: short_code(event.key), value },
                sync(),
            ],
        )
    }

    /// What is emitted on the mouse for a movement.
    pub fn inject_mouse_move(&self, event: &MouseMoveEvent) -> (r: Result<
        Vec<DeviceEvent>,
        InputError,
    >)
        ensures
            self.outcome(InputEvent::MouseMove(*event), r),
    {
        if self.mouse.is_none() {
            return Err(InputError::EventInjectionFailed("Mouse not initialized".to_owned()));
        }
        let events = match event.movement {
            MouseMovement::Relative { dx, dy } => vec![
                DeviceEvent { event_type: EV_REL, code: REL_X, value: dx },
                DeviceEvent { event_type: EV_REL, code: REL_Y, value: dy },
                sync(),
            ],
            MouseMovement::Absolute { x, y } => vec![
                DeviceEvent { event_type: EV_ABS, code: ABS_X, value: x },
                DeviceEvent { event_type: EV_ABS, code: ABS_Y, value: y },
                sync(),
            ],
        };
        Ok(events)
    }

    /// What is emitted on the mouse for a button.
    pub fn inject_mouse_button(&self, event: &MouseButtonEvent) -> (r: Result<
        Vec<DeviceEvent>,
        InputError,
    >)
        ensures
            self.outcome(InputEvent::MouseButton(*event), r),
    {
        if self.mouse.is_none() {
            return Err(InputError::EventInjectionFailed("Mouse not initialized".to_owned()));
        }
        let value: i32 = if event.pressed {
            1
        } else {
            0
        };
        Ok(
            vec![
                DeviceEvent { event_type: EV_KEY, code: short_code(event.button), value },
                sync(),
            ],
        )
    }

    /// What is emitted on the mouse for the wheels.
    pub fn inject_mouse_wheel(&self, event: &MouseWheelEvent) -> (r: Result<
        Vec<DeviceEvent>,
        InputError,
    >)
        ensures
            self.outcome(InputEvent::MouseWheel(*event), r),
    {
        if self.mouse.is_none() {
            return Err(InputError::EventInjectionFailed("Mouse not initialized".to_owned()));
        }
        let mut events: Vec<DeviceEvent> = Vec::new();
        if event.dy.moved {
            events.push(
                DeviceEvent { event_type: EV_REL, code: REL_WHEEL, value: event.dy.notches },
            );
        }
        if event.dx.moved {
            events.push(
                DeviceEvent { event_type: EV_REL, code: REL_HWHEEL, value: event.dx.notches },
            );
        }
        events.push(sync());
        assert(events@ =~= wheel_group(*event));
        Ok(events)
    }

    /// What is emitted for a shared event, and on which device.
    pub fn inject(&self, event: &InputEvent) -> (r: Result<
        (Target, Vec<DeviceEvent>),
        InputError,
    >)
        ensures
            r matches Ok(plan) ==> plan.0 == target_of(*event) && self.outcome(
                *event,
                Ok(plan.1),
            ),
            r matches Err(e) ==> self.outcome(*event, Err(e)),
    {
        match event {
            InputEvent::Keyboard(e) => match self.inject_keyboard(e) {
                Ok(events) => Ok((Target::Keyboard, events)),
                Err(reason) => Err(reason),
            },
            InputEvent::MouseMove(e) => match self.inject_mouse_move(e) {
                Ok(events) => Ok((Target::Mouse, events)),
                Err(reason) => Err(reason),
            },
            InputEvent::MouseButton(e) => match self.inject_mouse_button(e) {
                Ok(events) => Ok((Target::Mouse, events)),
                Err(reason) => Err(reason),
            },
            InputEvent::MouseWheel(e) => match self.inject_mouse_wheel(e) {
                Ok(events) => Ok((Target::Mouse, events)),
                Err(reason) => Err(reason),
            },
        }
    }
}

/// How far the initialisation of the devices has come.
#[derive(Debug, Clone, Copy, PartialEq, Eq, Structural)]
pub enum InitPhase {
    /// The kernel's uinput device is looked for.
    Looking,
    CreatingKeyboard,
    CreatingMouse,
    Over,
}

/// What came of the last action.
#[derive(Debug)]
pub enum InitEvent<D> {
    /// Whether the kernel's uinput device is there.
    Looked(bool),
    /// The device that was created, or why it could not be.
    Created(Result<D, String>),
}

/// What is to be done next to initialise the devices.
pub enum InitAction {
    /// Look for the kernel's uinput device.
    Look,
    CreateKeyboard(KeyboardSetup),
    CreateMouse(MouseSetup),
    /// Both devices are there.
    Finish,
    Fail(InputError),
    /// Nothing is to be done.
    Nothing,
}

/// The initialisation of the devices.
#[derive(Debug, Clone, Copy, PartialEq, Eq, Structural)]
pub struct Initialization {
    pub phase: InitPhase,
}

/// How the keyboard of a backend is created.
pub open spec fn is_keyboard_setup(setup: KeyboardSetup) -> bool {
    &&& setup.key_codes() == keyboard_codes()
    &&& setup.repeat_delay == 250
    &&& setup.repeat_period == 33
}

/// How the mouse for a screen of this size is created.
pub open spec fn is_mouse_setup(setup: MouseSetup, width: i32, height: i32) -> bool {
    &&& setup.key_codes() == mouse_codes()
    &&& setup.axis_codes() == mouse_axes()
    &&& setup.abs_x == axis_up_to(ABS_X, width)
    &&& setup.abs_y == axis_up_to(ABS_Y, height)
}

/// Whether the initialisation of a backend goes on from `phase` to `next` with `action`,
/// and leaves the backend as `after`. Each device is created only if all before it was
/// there, and what fails first ends it. An event that does not answer the pending action
/// changes nothing, so that the action is asked for again.
pub open spec fn init_goes_on<D>(
    phase: InitPhase,
    before: UInputBackend<D>,
    event: InitEvent<D>,
    next: InitPhase,
    after: UInputBackend<D>,
    action: InitAction,
) -> bool {
    match (phase, event) {
        (InitPhase::Looking, InitEvent::Looked(true)) => {
            &&& next == InitPhase::CreatingKeyboard
            &&& after == before
            &&& action matches InitAction::CreateKeyboard(setup) && is_keyboard_setup(setup)
        },
        (InitPhase::Looking, InitEvent::Looked(false)) => {
            &&& next == InitPhase::Over
            &&& after == before
            &&& action matches InitAction::Fail(InputError::InitializationFailed(reason))
                && reason@ == "uinput device not found. Is the uinput module loaded?"@
        },
        (InitPhase::Looking, _) => next == phase && after == before && action
            == InitAction::Look,
        (InitPhase::CreatingKeyboard, InitEvent::Created(Ok(device))) => {
            &&& next == InitPhase::CreatingMouse
            &&& after == UInputBackend { keyboard: Some(device), ..before }
            &&& action matches InitAction::CreateMouse(setup) && is_mouse_setup(
                setup,
                before.screen_width,
                before.screen_height,
            )
        },
        (InitPhase::CreatingMouse, InitEvent::Created(Ok(device))) => {
            &&& next == InitPhase::Over
            &&& after == UInputBackend { mouse: Some(device), ..before }
            &&& action == InitAction::Finish
        },
        (
            InitPhase::CreatingKeyboard | InitPhase::CreatingMouse,
            InitEvent::Created(Err(reason)),
        ) => {
            &&& next == InitPhase::Over
            &&& after == before
            &&& action == InitAction::Fail(InputError::DeviceCreationFailed(reason))
        },
        (InitPhase::CreatingKeyboard, _) => {
            &&& next == phase
            &&& after == before
            &&& action matches InitAction::CreateKeyboard(setup) && is_keyboard_setup(setup)
        },
        (InitPhase::CreatingMouse, _) => {
            &&& next == phase
            &&& after == before
            &&& action matches InitAction::CreateMouse(setup) && is_mouse_setup(
                setup,
                before.screen_width,
                before.screen_height,
            )
        },
        (InitPhase::Over, _) => next == phase && after == before && action
            == InitAction::Nothing,
    }
}

impl Initialization {
    /// Takes in what came of the pending action, and says what is to be done next.
    pub fn advance<D>(&mut self, backend: &mut UInputBackend<D>, event: InitEvent<D>) -> (r:
        InitAction)
        ensures
            init_goes_on(
                old(self).phase,
                *old(backend),
                event,
                final(self).phase,
                *final(backend),
                r,
            ),
    {
        match (self.phase, event) {
            (InitPhase::Looking, InitEvent::Looked(true)) => {
                self.phase = InitPhase::CreatingKeyboard;
                InitAction::CreateKeyboard(backend.create_keyboard())
            },
            (InitPhase::Looking, InitEvent::Looked(false)) => {
                self.phase = InitPhase::Over;
                InitAction::Fail(
                    InputError::InitializationFailed(
                        "uinput device not found. Is the uinput module loaded?".to_owned(),
                    ),
                )
            },
            (InitPhase::Looking, _) => InitAction::Look,
            (InitPhase::CreatingKeyboard, InitEvent::Created(Ok(device))) => {
                backend.keyboard = Some(device);
                self.phase = InitPhase::CreatingMouse;
                InitAction::CreateMouse(backend.create_mouse())
            },
            (InitPhase::CreatingMouse, InitEvent::Created(Ok(device))) => {
                backend.mouse = Some(device);
                self.phase = InitPhase::Over;
                InitAction::Finish
            },
            (
                InitPhase::CreatingKeyboard | InitPhase::CreatingMouse,
                InitEvent::Created(Err(reason)),
            ) => {
                self.phase = InitPhase::Over;
                InitAction::Fail(InputError::DeviceCreationFailed(reason))
            },
            (InitPhase::CreatingKeyboard, _) => InitAction::CreateKeyboard(
                backend.create_keyboard(),
            ),
            (InitPhase::CreatingMouse, _) => InitAction::CreateMouse(backend.create_mouse()),
            (InitPhase::Over, _) => InitAction::Nothing,
        }
    }
}

/// Whether these are the phases, the backends and the actions of an initialisation from
/// its beginning on, with these events.
pub open spec fn is_initialization<D>(
    phases: Seq<InitPhase>,
    backends: Seq<UInputBackend<D>>,
    events: Seq<InitEvent<D>>,
    actions: Seq<InitAction>,
) -> bool {
    &&& phases.len() == events.len() + 1
    &&& backends.len() == events.len() + 1
    &&& actions.len() == events.len()
    &&& phases[0] == InitPhase::Looking
    &&& forall|i: int|
        0 <= i < events.len() ==> init_goes_on(
            phases[i],
            backends[i],
            #[trigger] events[i],
            phases[i + 1],
            backends[i + 1],
            actions[i],
        )
}

/// The devices come one after the other: the mouse is created only once there is a
/// keyboard, and the initialisation finishes only with both. After a failure nothing more
/// is created.
pub proof fn law_init_needs_both_devices<D>(
    phases: Seq<InitPhase>,
    backends: Seq<UInputBackend<D>>,
    events: Seq<InitEvent<D>>,
    actions: Seq<InitAction>,
    n: int,
)
    requires
        is_initialization(phases, backends, events, actions),
        0 <= n < events.len(),
    ensures
        actions[n] is CreateMouse ==> backends[n + 1].keyboard is Some,
        actions[n] is Finish ==> backends[n + 1].keyboard is Some && backends[n + 1].mouse is Some,
        phases[n + 1] is CreatingMouse ==> backends[n + 1].keyboard is Some,
        actions[n] is Fail ==> phases[n + 1] is Over,
        phases[n] is Over ==> actions[n] is Nothing && phases[n + 1] is Over && backends[n + 1]
            == backends[n],
    decreases n,
{
    if n > 0 {
        law_init_needs_both_devices(phases, backends, events, actions, n - 1);
    }
    assert(init_goes_on(
        phases[n],
        backends[n],
        events[n],
        phases[n + 1],
        backends[n + 1],
        actions[n],
    ));
}

/// An event as it is emitted on a virtual device.
pub open spec fn as_emitted(event: RawEvent) -> DeviceEvent {
    DeviceEvent { event_type: event.event_type, code: event.code, value: event.value }
}

/// A key arrives as it was pressed: what is emitted for a captured key is the
/// captured event itself, whatever its value.
pub proof fn law_key_arrives(event: RawEvent)
    requires
        converted(event) matches Some(InputEvent::Keyboard(_)),
    ensures
        emitted(converted(event)->0) == seq![as_emitted(event), sync_event()],
        target_of(converted(event)->0) == Target::Keyboard,
{
}

/// A press or a release of a mouse button arrives as it was captured.
pub proof fn law_button_arrives(event: RawEvent)
    requires
        converted(event) matches Some(InputEvent::MouseButton(_)),
        event.value == 0 || event.value == 1,
    ensures
        emitted(converted(event)->0) == seq![as_emitted(event), sync_event()],
        target_of(converted(event)->0) == Target::Mouse,
{
}

/// A movement along one axis arrives with the same amount, and with none along the
/// other axis.
pub proof fn law_movement_arrives(event: RawEvent)
    requires
        converted(event) matches Some(InputEvent::MouseMove(_)),
    ensures
        emitted(converted(event)->0) == (if event.code == REL_X {
            seq![
                as_emitted(event),
                DeviceEvent { event_type: EV_REL, code: REL_Y, value: 0 },
                sync_event(),
            ]
        } else {
            seq![
                DeviceEvent { event_type: EV_REL, code: REL_X, value: 0 },
                as_emitted(event),
                sync_event(),
            ]
        }),
        target_of(converted(event)->0) == Target::Mouse,
{
}

/// A turn of a wheel arrives as it was captured. A wheel that did not turn leaves
/// nothing but the end of the group.
pub proof fn law_wheel_arrives(event: RawEvent)
    requires
        converted(event) matches Some(InputEvent::MouseWheel(_)),
    ensures
        emitted(converted(event)->0) == (if event.value != 0 {
            seq![as_emitted(event), sync_event()]
        } else {
            seq![sync_event()]
        }),
        target_of(converted(event)->0) == Target::Mouse,
{
    assert(emitted(converted(event)->0) =~= (if event.value != 0 {
        seq![as_emitted(event), sync_event()]
    } else {
        seq![sync_event()]
    }));
}

/// A key is emitted as what it is: its own code in 16 bits, with the value that was captured,
/// or 1 for a press of which only that is known; then the group is closed. It goes to the
/// keyboard.
pub proof fn law_key_is_emitted(event: KeyboardEvent)
    ensures
        ({
            let group = emitted(InputEvent::Keyboard(event));
            &&& group.len() == 2
            &&& group[0].event_type == 1
            &&& group[0].code == event.key % 0x1_0000
            &&& event.raw_value != 0 ==> group[0].value == event.raw_value
            &&& event.raw_value == 0 && event.pressed ==> group[0].value == 1
            &&& event.raw_value == 0 && !event.pressed ==> group[0].value == 0
            &&& group[1].event_type == 0 && group[1].code == 0 && group[1].value == 0
            &&& target_of(InputEvent::Keyboard(event)) is Keyboard
        }),
{
}

/// A button is emitted as what it is: its own code in 16 bits, with 1 for a press and 0 for a
/// release; then the group is closed. It goes to the mouse.
pub proof fn law_button_is_emitted(event: MouseButtonEvent)
    ensures
        ({
            let group = emitted(InputEvent::MouseButton(event));
            &&& group.len() == 2
            &&& group[0].event_type == 1
            &&& group[0].code == event.button % 0x1_0000
            &&& event.pressed ==> group[0].value == 1
            &&& !event.pressed ==> group[0].value == 0
            &&& group[1].event_type == 0 && group[1].code == 0 && group[1].value == 0
            &&& target_of(InputEvent::MouseButton(event)) is Mouse
        }),
{
}

/// A movement is emitted on both axes, the horizontal one first, with its amounts or its
/// position; then the group is closed. It goes to the mouse.
pub proof fn law_movement_is_emitted(event: MouseMoveEvent)
    ensures
        ({
            let group = emitted(InputEvent::MouseMove(event));
            let relative = event.movement is Relative;
            &&& group.len() == 3
            &&& relative ==> group[0].event_type == 2 && group[1].event_type == 2
            &&& !relative ==> group[0].event_type == 3 && group[1].event_type == 3
            &&& group[0].code == 0 && group[1].code == 1
            &&& event.movement matches MouseMovement::Relative { dx, dy } ==> group[0].value == dx
                && group[1].value == dy
            &&& event.movement matches MouseMovement::Absolute { x, y } ==> group[0].value == x
                && group[1].value == y
            &&& group[2].event_type == 0 && group[2].code == 0 && group[2].value == 0
            &&& target_of(InputEvent::MouseMove(event)) is Mouse
        }),
{
}

/// Each wheel that turned is emitted with its notches, the vertical one first, and no other;
/// then the group is closed. It goes to the mouse.
pub proof fn law_wheel_is_emitted(event: MouseWheelEvent)
    ensures
        ({
            let group = emitted(InputEvent::MouseWheel(event));
            let turned = (if event.dy.moved {
                1int
            } else {
                0
            }) + (if event.dx.moved {
                1int
            } else {
                0
            });
            &&& group.len() == turned + 1
            &&& event.dy.moved ==> group[0].event_type == 2 && group[0].code == 8 && group[0].value
                == event.dy.notches
            &&& event.dx.moved ==> group[turned - 1].event_type == 2 && group[turned - 1].code == 6
                && group[turned - 1].value == event.dx.notches
            &&& group[turned].event_type == 0 && group[turned].code == 0 && group[turned].value == 0
            &&& target_of(InputEvent::MouseWheel(event)) is Mouse
        }),
{
}

/// Only the device that an event goes to matters: with it the event is emitted, and without it
/// the injection fails and says which device is missing.
pub proof fn law_injection_needs_its_device<D>(
    backend: UInputBackend<D>,
    event: InputEvent,
    r: Result<Vec<DeviceEvent>, InputError>,
)
    requires
        backend.outcome(event, r),
    ensures
        event is Keyboard ==> (r is Ok <==> backend.keyboard is Some),
        !(event is Keyboard) ==> (r is Ok <==> backend.mouse is Some),
        r matches Ok(events) ==> events@ == emitted(event),
        r matches Err(e) ==> (e matches InputError::EventInjectionFailed(reason) && {
            &&& event is Keyboard ==> reason@ == "Keyboard not initialized"@
            &&& !(event is Keyboard) ==> reason@ == "Mouse not initialized"@
        }),
{
}

/// The virtual keyboard can press every key from the first to the 256th and no other, and
/// repeats a held key after 250 milliseconds, every 33 milliseconds.
pub proof fn law_keyboard_has_its_keys(setup: KeyboardSetup, code: u16)
    requires
        is_keyboard_setup(setup),
    ensures
        crate::kernel::key_set_codes(setup.keys).contains(code) <==> 1 <= code <= 256,
        setup.repeat_delay == 250,
        setup.repeat_period == 33,
{
}

/// The virtual mouse has the five buttons from the left one on, moves and scrolls in both
/// directions, and can be placed anywhere on the screen: its absolute axes run from 0 to the
/// width and to the height.
pub proof fn law_mouse_has_its_axes(setup: MouseSetup, width: i32, height: i32, code: u16)
    requires
        is_mouse_setup(setup, width, height),
    ensures
        crate::kernel::key_set_codes(setup.keys).contains(code) <==> 0x110 <= code <= 0x114,
        crate::kernel::axis_set_codes(setup.relative).contains(code) <==> code == 0 || code == 1
            || code == 6 || code == 8,
        setup.abs_x.code == 0 && setup.abs_y.code == 1,
        setup.abs_x.minimum == 0 && setup.abs_x.maximum == width,
        setup.abs_y.minimum == 0 && setup.abs_y.maximum == height,
        setup.abs_x.value == 0 && setup.abs_x.fuzz == 0 && setup.abs_x.flat == 0,
        setup.abs_y.value == 0 && setup.abs_y.fuzz == 0 && setup.abs_y.flat == 0,
        setup.abs_x.resolution == 1 && setup.abs_y.resolution == 1,
{
}

/// The keys and buttons that arrive can be pressed: every key that is captured with a code
/// that the keyboard has, and each of the first five buttons, is emitted on a device that has
/// its code.
pub proof fn law_emitted_codes_exist(
    event: RawEvent,
    keyboard: KeyboardSetup,
    mouse: MouseSetup,
    width: i32,
    height: i32,
)
    requires
        is_keyboard_setup(keyboard),
        is_mouse_setup(mouse, width, height),
        event.event_type == 1,
        event.value == 0 || event.value == 1,
        1 <= event.code <= 256 || 0x110 <= event.code <= 0x114,
    ensures
        converted(event) is Some,
        target_of(converted(event)->0) is Keyboard ==> crate::kernel::key_set_codes(
            keyboard.keys,
        ).contains(emitted(converted(event)->0)[0].code),
        target_of(converted(event)->0) is Mouse ==> crate::kernel::key_set_codes(
            mouse.keys,
        ).contains(emitted(converted(event)->0)[0].code),
        emitted(converted(event)->0)[0].value == event.value,
{
}

/// What comes of each device is what the backend holds: a device that was created is kept, one
/// that was not is reported with its own reason, and nothing else of the backend changes.
pub proof fn law_init_outcomes<D>(
    phase: InitPhase,
    before: UInputBackend<D>,
    event: InitEvent<D>,
    next: InitPhase,
    after: UInputBackend<D>,
    action: InitAction,
)
    requires
        init_goes_on(phase, before, event, next, after, action),
    ensures
        after.screen_width == before.screen_width,
        after.screen_height == before.screen_height,
        after.keyboard == (match event {
            InitEvent::Created(Ok(device)) if phase is CreatingKeyboard => Some(device),
            _ => before.keyboard,
        }),
        after.mouse == (match event {
            InitEvent::Created(Ok(device)) if phase is CreatingMouse => Some(device),
            _ => before.mouse,
        }),
        phase is Looking ==> match event {
            InitEvent::Looked(true) => action is CreateKeyboard && next is CreatingKeyboard,
            InitEvent::Looked(false) => next is Over && (action matches InitAction::Fail(
                InputError::InitializationFailed(_),
            )),
            _ => action is Look && next is Looking,
        },
        phase is CreatingKeyboard ==> match event {
            InitEvent::Created(Ok(_)) => action is CreateMouse && next is CreatingMouse,
            InitEvent::Created(Err(reason)) => next is Over && action == InitAction::Fail(
                InputError::DeviceCreationFailed(reason),
            ),
            _ => action is CreateKeyboard && next is CreatingKeyboard,
        },
        phase is CreatingMouse ==> match event {
            InitEvent::Created(Ok(_)) => action is Finish && next is Over,
            InitEvent::Created(Err(reason)) => next is Over && action == InitAction::Fail(
                InputError::DeviceCreationFailed(reason),
            ),
            _ => action is CreateMouse && next is CreatingMouse,
        },
        action matches InitAction::CreateKeyboard(setup) ==> is_keyboard_setup(setup),
        action matches InitAction::CreateMouse(setup) ==> is_mouse_setup(
            setup,
            before.screen_width,
            before.screen_height,
        ),
        phase is Over ==> action is Nothing && next is Over,
{
}

} // verus!
