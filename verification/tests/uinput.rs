use cosmic_kvm::codes;
use cosmic_kvm::convert::{convert_event, RawEvent};
use cosmic_kvm::events::{
    InputEvent, KeyboardEvent, ModifierState, MouseButtonEvent, MouseMoveEvent, MouseMovement,
    MouseWheelEvent, ScrollAmount,
};
use cosmic_kvm::uinput::{
    AxisSetup, DeviceEvent, InitAction, InitEvent, InputError, Target, UInputBackend,
};
use evdev::{Key, RelativeAxisType};

fn ready() -> UInputBackend<&'static str> {
    let mut backend = UInputBackend::new().unwrap();
    let mut initialization = backend.init();
    let first = initialization.advance(&mut backend, InitEvent::Looked(true));
    assert!(matches!(first, InitAction::CreateKeyboard(_)));
    let second = initialization.advance(&mut backend, InitEvent::Created(Ok("keyboard")));
    assert!(matches!(second, InitAction::CreateMouse(_)));
    assert_eq!((backend.keyboard, backend.mouse), (Some("keyboard"), None));
    let third = initialization.advance(&mut backend, InitEvent::Created(Ok("mouse")));
    assert!(matches!(third, InitAction::Finish));
    assert_eq!((backend.keyboard, backend.mouse), (Some("keyboard"), Some("mouse")));
    backend
}

fn failure(action: InitAction) -> InputError {
    match action {
        InitAction::Fail(error) => error,
        _ => panic!("no failure"),
    }
}

fn emit(event_type: u16, code: u16, value: i32) -> DeviceEvent {
    DeviceEvent { event_type, code, value }
}

fn syn() -> DeviceEvent {
    emit(0, 0, 0)
}

fn keyboard(key: u32, pressed: bool, raw_value: i32) -> KeyboardEvent {
    KeyboardEvent { time: 0, key, pressed, raw_value, modifiers: ModifierState::default() }
}

#[test]
fn test_backend_creation() {
    let backend = UInputBackend::<u32>::new();
    assert!(backend.is_ok());
}

#[test]
fn a_backend_starts_without_devices() {
    let backend = UInputBackend::<u32>::new().unwrap();
    assert_eq!(backend.keyboard, None);
    assert_eq!(backend.mouse, None);
    assert_eq!((backend.screen_width, backend.screen_height), (1920, 1080));
}

#[test]
fn nothing_is_created_without_uinput() {
    let mut backend = UInputBackend::<u32>::new().unwrap();
    let mut initialization = backend.init();
    assert_eq!(
        failure(initialization.advance(&mut backend, InitEvent::Looked(false))),
        InputError::InitializationFailed(
            "uinput device not found. Is the uinput module loaded?".to_string()
        )
    );
    let later = initialization.advance(&mut backend, InitEvent::Created(Ok(1)));
    assert!(matches!(later, InitAction::Nothing));
    assert_eq!((backend.keyboard, backend.mouse), (None, None));
}

#[test]
fn a_device_that_cannot_be_created_is_reported() {
    let failed = InputError::DeviceCreationFailed("no".to_string());
    let mut backend = UInputBackend::<u32>::new().unwrap();
    let mut initialization = backend.init();
    initialization.advance(&mut backend, InitEvent::Looked(true));
    let keyboard = initialization.advance(&mut backend, InitEvent::Created(Err("no".to_string())));
    assert_eq!(failure(keyboard), failed);
    let later = initialization.advance(&mut backend, InitEvent::Created(Ok(1)));
    assert!(matches!(later, InitAction::Nothing));
    assert_eq!((backend.keyboard, backend.mouse), (None, None));

    let mut initialization = backend.init();
    initialization.advance(&mut backend, InitEvent::Looked(true));
    initialization.advance(&mut backend, InitEvent::Created(Ok(1)));
    let mouse = initialization.advance(&mut backend, InitEvent::Created(Err("no".to_string())));
    assert_eq!(failure(mouse), failed);
    assert_eq!((backend.keyboard, backend.mouse), (Some(1), None));
}

#[test]
fn the_keyboard_has_its_keys() {
    let backend = UInputBackend::<u32>::new().unwrap();
    let setup = backend.create_keyboard();
    let codes: Vec<u16> = setup.keys().iter().map(|key| key.code()).collect();
    assert_eq!(codes, (1..=256).collect::<Vec<u16>>());
    assert_eq!((setup.repeat_delay, setup.repeat_period), (250, 33));
    assert_eq!(setup.name(), "COSMIC KVM Virtual Keyboard");
}

#[test]
fn the_mouse_has_its_buttons_and_axes() {
    let mut backend = UInputBackend::<u32>::new().unwrap();
    backend.set_screen_size(2560, 1440);
    let setup = backend.create_mouse();
    let buttons: Vec<Key> = setup.keys().iter().collect();
    assert_eq!(
        buttons,
        vec![Key::BTN_LEFT, Key::BTN_RIGHT, Key::BTN_MIDDLE, Key::BTN_SIDE, Key::BTN_EXTRA]
    );
    let axes: Vec<RelativeAxisType> = setup.relative_axes().iter().collect();
    assert_eq!(
        axes,
        vec![
            RelativeAxisType::REL_X,
            RelativeAxisType::REL_Y,
            RelativeAxisType::REL_HWHEEL,
            RelativeAxisType::REL_WHEEL,
        ]
    );
    let axis = AxisSetup {
        code: codes::ABS_X,
        value: 0,
        minimum: 0,
        maximum: 2560,
        fuzz: 0,
        flat: 0,
        resolution: 1,
    };
    assert_eq!(setup.abs_x, axis);
    assert_eq!(setup.abs_y, AxisSetup { code: codes::ABS_Y, maximum: 1440, ..axis });
    assert_eq!(setup.name(), "COSMIC KVM Virtual Mouse");
}

#[test]
fn nothing_is_injected_without_devices() {
    let backend = UInputBackend::<u32>::new().unwrap();
    let no_keyboard =
        Err(InputError::EventInjectionFailed("Keyboard not initialized".to_string()));
    let no_mouse = Err(InputError::EventInjectionFailed("Mouse not initialized".to_string()));
    let movement = MouseMoveEvent { time: 0, movement: MouseMovement::Relative { dx: 1, dy: 1 } };
    let button = MouseButtonEvent { time: 0, button: 0x110, pressed: true };
    let still = ScrollAmount::from_notches(0);
    let wheel = MouseWheelEvent { time: 0, dx: still, dy: still };
    assert_eq!(backend.inject_keyboard(&keyboard(30, true, 1)), no_keyboard);
    assert_eq!(backend.inject_mouse_move(&movement), no_mouse);
    assert_eq!(backend.inject_mouse_button(&button), no_mouse);
    assert_eq!(backend.inject_mouse_wheel(&wheel), no_mouse);
    assert_eq!(
        backend.inject(&InputEvent::MouseButton(button)),
        Err(InputError::EventInjectionFailed("Mouse not initialized".to_string()))
    );
}

#[test]
fn keys_keep_their_raw_value() {
    let backend = ready();
    for (pressed, raw_value, value) in
        [(true, 1, 1), (false, 0, 0), (true, 2, 2), (true, 0, 1), (false, 1, 1), (false, 7, 7)]
    {
        assert_eq!(
            backend.inject_keyboard(&keyboard(30, pressed, raw_value)),
            Ok(vec![emit(1, 30, value), syn()])
        );
    }
}

#[test]
fn codes_are_cut_to_sixteen_bits() {
    let backend = ready();
    assert_eq!(
        backend.inject_keyboard(&keyboard(0x1_001e, true, 1)),
        Ok(vec![emit(1, 0x1e, 1), syn()])
    );
}

#[test]
fn movements_are_emitted_with_both_axes() {
    let backend = ready();
    let relative = MouseMoveEvent { time: 0, movement: MouseMovement::Relative { dx: -3, dy: 4 } };
    assert_eq!(
        backend.inject_mouse_move(&relative),
        Ok(vec![emit(2, 0, -3), emit(2, 1, 4), syn()])
    );
    let absolute = MouseMoveEvent { time: 0, movement: MouseMovement::Absolute { x: 960, y: 540 } };
    assert_eq!(
        backend.inject_mouse_move(&absolute),
        Ok(vec![emit(3, 0, 960), emit(3, 1, 540), syn()])
    );
}

#[test]
fn buttons_are_pressed_and_released() {
    let backend = ready();
    for (pressed, value) in [(true, 1), (false, 0)] {
        let event = MouseButtonEvent { time: 0, button: 0x112, pressed };
        assert_eq!(backend.inject_mouse_button(&event), Ok(vec![emit(1, 0x112, value), syn()]));
    }
}

#[test]
fn a_wheel_that_turned_is_emitted() {
    let backend = ready();
    let wheel = |dx: ScrollAmount, dy: ScrollAmount| MouseWheelEvent { time: 0, dx, dy };
    let still = ScrollAmount::from_notches(0);
    let part = ScrollAmount { moved: true, notches: 0 };
    let two = ScrollAmount::from_notches(2);
    assert_eq!(backend.inject_mouse_wheel(&wheel(still, still)), Ok(vec![syn()]));
    assert_eq!(backend.inject_mouse_wheel(&wheel(still, two)), Ok(vec![emit(2, 8, 2), syn()]));
    assert_eq!(backend.inject_mouse_wheel(&wheel(two, still)), Ok(vec![emit(2, 6, 2), syn()]));
    assert_eq!(
        backend.inject_mouse_wheel(&wheel(two, part)),
        Ok(vec![emit(2, 8, 0), emit(2, 6, 2), syn()])
    );
}

#[test]
fn what_is_captured_arrives() {
    let backend = ready();
    let raw = |event_type: u16, code: u16, value: i32| RawEvent {
        timestamp: None,
        event_type,
        code,
        value,
    };
    let arrives = |event: RawEvent| backend.inject(&convert_event(&event).unwrap()).unwrap();
    assert_eq!(arrives(raw(1, 30, 1)), (Target::Keyboard, vec![emit(1, 30, 1), syn()]));
    assert_eq!(arrives(raw(1, 30, 9)), (Target::Keyboard, vec![emit(1, 30, 9), syn()]));
    assert_eq!(arrives(raw(1, 0x110, 1)), (Target::Mouse, vec![emit(1, 0x110, 1), syn()]));
    assert_eq!(
        arrives(raw(2, 1, -5)),
        (Target::Mouse, vec![emit(2, 0, 0), emit(2, 1, -5), syn()])
    );
    assert_eq!(arrives(raw(2, 8, -1)), (Target::Mouse, vec![emit(2, 8, -1), syn()]));
    assert_eq!(arrives(raw(2, 6, 0)), (Target::Mouse, vec![syn()]));
}
