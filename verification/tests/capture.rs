use cosmic_kvm::capture::{
    is_event_node, is_toggle_press, CaptureAction, CaptureError, CaptureEvent, DeviceCapture,
    InputCapture, Probe, TOGGLE_KEY,
};
use cosmic_kvm::codes;
use cosmic_kvm::convert::{
    convert_event, is_keyboard_or_mouse, is_mouse_button, millis, RawEvent, SinceEpoch,
};
use cosmic_kvm::events::{
    InputEvent, KeyboardEvent, ModifierState, MouseButtonEvent, MouseMoveEvent, MouseMovement,
    MouseWheelEvent, ScrollAmount,
};
use evdev::{AttributeSet, EventType, Key, RelativeAxisType};

fn raw(event_type: u16, code: u16, value: i32) -> RawEvent {
    RawEvent {
        timestamp: Some(SinceEpoch { seconds: 1_700_000_000, nanos: 123_456_789 }),
        event_type,
        code,
        value,
    }
}

const TIME: u64 = 1_700_000_000_123;

fn key(code: u16, value: i32) -> RawEvent {
    raw(codes::EV_KEY, code, value)
}

#[test]
fn test_input_capture_creation() {
    let result = InputCapture::<u32>::new();
    assert!(result.is_ok());
}

#[test]
fn codes_are_those_of_evdev() {
    assert_eq!(codes::EV_SYN, EventType::SYNCHRONIZATION.0);
    assert_eq!(codes::EV_KEY, EventType::KEY.0);
    assert_eq!(codes::EV_REL, EventType::RELATIVE.0);
    assert_eq!(codes::EV_ABS, EventType::ABSOLUTE.0);
    assert_eq!(codes::REL_X, RelativeAxisType::REL_X.0);
    assert_eq!(codes::REL_Y, RelativeAxisType::REL_Y.0);
    assert_eq!(codes::REL_WHEEL, RelativeAxisType::REL_WHEEL.0);
    assert_eq!(codes::REL_HWHEEL, RelativeAxisType::REL_HWHEEL.0);
    assert_eq!(codes::ABS_X, evdev::AbsoluteAxisType::ABS_X.0);
    assert_eq!(codes::ABS_Y, evdev::AbsoluteAxisType::ABS_Y.0);
    assert_eq!(codes::KEY_A, Key::KEY_A.code());
    assert_eq!(codes::KEY_ENTER, Key::KEY_ENTER.code());
    assert_eq!(codes::KEY_SPACE, Key::KEY_SPACE.code());
    assert_eq!(TOGGLE_KEY, Key::KEY_SCROLLLOCK.code());
    assert_eq!(codes::BTN_LEFT, Key::BTN_LEFT.code());
    assert_eq!(codes::BTN_RIGHT, Key::BTN_RIGHT.code());
    assert_eq!(codes::BTN_MIDDLE, Key::BTN_MIDDLE.code());
    assert_eq!(codes::BTN_SIDE, Key::BTN_SIDE.code());
    assert_eq!(codes::BTN_EXTRA, Key::BTN_EXTRA.code());
    assert_eq!(codes::BTN_FORWARD, Key::BTN_FORWARD.code());
    assert_eq!(codes::BTN_BACK, Key::BTN_BACK.code());
}

#[test]
fn a_capture_without_devices_does_not_run() {
    let capture = InputCapture::<u32>::new().unwrap();
    assert_eq!(capture.run(), Err(CaptureError::NoDevices));
    assert_eq!(CaptureError::NoDevices.text(), "No devices to capture from. Add devices first.");
}

#[test]
fn a_capture_hands_out_its_devices_in_local_mode() {
    let mut capture = InputCapture::new().unwrap();
    capture.add_device("a");
    let probes = vec![
        Probe { device: "b", usable: true },
        Probe { device: "c", usable: false },
        Probe { device: "d", usable: true },
    ];
    assert_eq!(capture.add_all_devices(true, probes), Ok(()));
    assert_eq!(capture.run(), Ok((vec!["a", "b", "d"], false)));
}

#[test]
fn a_missing_input_directory_adds_nothing() {
    let mut capture = InputCapture::new().unwrap();
    let probes = vec![Probe { device: 1, usable: true }];
    assert_eq!(capture.add_all_devices(false, probes), Err(CaptureError::NoInputDirectory));
    assert_eq!(CaptureError::NoInputDirectory.text(), "/dev/input directory not found");
    assert_eq!(capture.run(), Err(CaptureError::NoDevices));
}

#[test]
fn only_event_nodes_are_looked_at() {
    assert!(is_event_node(Some("event0")));
    assert!(is_event_node(Some("event")));
    assert!(!is_event_node(Some("even")));
    assert!(!is_event_node(Some("mouse0")));
    assert!(!is_event_node(Some("xevent0")));
    assert!(!is_event_node(None));
}

#[test]
fn keyboards_and_mice_are_recognised() {
    let mut types = AttributeSet::<EventType>::new();
    let mut keys = AttributeSet::<Key>::new();
    assert!(!is_keyboard_or_mouse(&types, Some(&keys)));
    keys.insert(Key::KEY_A);
    assert!(!is_keyboard_or_mouse(&types, Some(&keys)));
    types.insert(EventType::KEY);
    assert!(is_keyboard_or_mouse(&types, Some(&keys)));
    assert!(!is_keyboard_or_mouse(&types, None));

    for telling in [Key::KEY_ENTER, Key::KEY_SPACE, Key::BTN_LEFT, Key::BTN_RIGHT, Key::BTN_MIDDLE] {
        let mut keys = AttributeSet::<Key>::new();
        keys.insert(telling);
        assert!(is_keyboard_or_mouse(&types, Some(&keys)));
    }

    let mut power = AttributeSet::<Key>::new();
    power.insert(Key::KEY_POWER);
    power.insert(Key::BTN_SIDE);
    assert!(!is_keyboard_or_mouse(&types, Some(&power)));
    types.insert(EventType::RELATIVE);
    assert!(is_keyboard_or_mouse(&types, Some(&power)));
    assert!(is_keyboard_or_mouse(&types, None));
}

#[test]
fn timestamps_are_in_milliseconds() {
    assert_eq!(millis(None), 0);
    assert_eq!(millis(Some(SinceEpoch { seconds: 0, nanos: 999_999 })), 0);
    assert_eq!(millis(Some(SinceEpoch { seconds: 2, nanos: 1_000_000 })), 2001);
    let late = SinceEpoch { seconds: u64::MAX, nanos: 999_999_999 };
    assert_eq!(
        millis(Some(late)),
        std::time::Duration::new(late.seconds, late.nanos).as_millis() as u64
    );
}

#[test]
fn keys_are_converted() {
    assert_eq!(
        convert_event(&key(codes::KEY_A, 1)),
        Some(InputEvent::Keyboard(KeyboardEvent {
            time: TIME,
            key: 30,
            pressed: true,
            raw_value: 1,
            modifiers: ModifierState::default(),
        }))
    );
    assert_eq!(
        convert_event(&key(codes::KEY_A, 0)),
        Some(InputEvent::Keyboard(KeyboardEvent {
            time: TIME,
            key: 30,
            pressed: false,
            raw_value: 0,
            modifiers: ModifierState { shift: false, ctrl: false, alt: false, meta: false },
        }))
    );
    assert_eq!(convert_event(&key(codes::KEY_A, 2)), None);
}

#[test]
fn buttons_are_converted() {
    for code in [
        codes::BTN_LEFT,
        codes::BTN_RIGHT,
        codes::BTN_MIDDLE,
        codes::BTN_SIDE,
        codes::BTN_EXTRA,
        codes::BTN_FORWARD,
        codes::BTN_BACK,
    ] {
        assert!(is_mouse_button(code));
        for value in [0, 1, 2] {
            assert_eq!(
                convert_event(&key(code, value)),
                Some(InputEvent::MouseButton(MouseButtonEvent {
                    time: TIME,
                    button: code as u32,
                    pressed: value == 1,
                }))
            );
        }
    }
    assert!(!is_mouse_button(Key::BTN_TASK.code()));
    assert!(!is_mouse_button(codes::KEY_A));
}

#[test]
fn movement_and_wheels_are_converted() {
    assert_eq!(
        convert_event(&raw(codes::EV_REL, codes::REL_X, -7)),
        Some(InputEvent::MouseMove(MouseMoveEvent {
            time: TIME,
            movement: MouseMovement::Relative { dx: -7, dy: 0 },
        }))
    );
    assert_eq!(
        convert_event(&raw(codes::EV_REL, codes::REL_Y, 4)),
        Some(InputEvent::MouseMove(MouseMoveEvent {
            time: TIME,
            movement: MouseMovement::Relative { dx: 0, dy: 4 },
        }))
    );
    let still = ScrollAmount { moved: false, notches: 0 };
    let turned = ScrollAmount { moved: true, notches: -1 };
    assert_eq!(
        convert_event(&raw(codes::EV_REL, codes::REL_WHEEL, -1)),
        Some(InputEvent::MouseWheel(MouseWheelEvent { time: TIME, dx: still, dy: turned }))
    );
    assert_eq!(
        convert_event(&raw(codes::EV_REL, codes::REL_HWHEEL, -1)),
        Some(InputEvent::MouseWheel(MouseWheelEvent { time: TIME, dx: turned, dy: still }))
    );
}

#[test]
fn nothing_else_is_converted() {
    assert_eq!(convert_event(&raw(codes::EV_SYN, 0, 0)), None);
    assert_eq!(convert_event(&raw(codes::EV_ABS, codes::ABS_X, 5)), None);
    assert_eq!(convert_event(&raw(codes::EV_REL, RelativeAxisType::REL_Z.0, 5)), None);
    assert_eq!(convert_event(&raw(EventType::MISC.0, codes::KEY_A, 1)), None);
    assert_eq!(convert_event(&raw(0x7fff, codes::KEY_A, 1)), None);
}

#[test]
fn only_the_press_of_scroll_lock_toggles() {
    assert!(is_toggle_press(&key(TOGGLE_KEY, 1)));
    assert!(!is_toggle_press(&key(TOGGLE_KEY, 0)));
    assert!(!is_toggle_press(&key(TOGGLE_KEY, 2)));
    assert!(!is_toggle_press(&key(codes::KEY_A, 1)));
    assert!(!is_toggle_press(&raw(codes::EV_REL, TOGGLE_KEY, 1)));
}

/// Carries out the actions of a capture until it wants to fetch, and returns what
/// it sent and the other actions that it asked for.
fn settle(
    capture: &mut DeviceCapture,
    remote: &mut bool,
    grab_works: bool,
) -> (Vec<InputEvent>, Vec<CaptureAction>) {
    let mut sent = Vec::new();
    let mut others = Vec::new();
    loop {
        let action = capture.action();
        match action {
            CaptureAction::Fetch | CaptureAction::Stop => return (sent, others),
            CaptureAction::LoadMode => capture.advance(CaptureEvent::Mode(*remote)),
            CaptureAction::Send(event) => {
                sent.push(event);
                capture.advance(CaptureEvent::Failed);
            }
            CaptureAction::StoreMode(mode) => {
                *remote = mode;
                others.push(action);
                capture.advance(CaptureEvent::Done);
            }
            CaptureAction::Grab | CaptureAction::Ungrab => {
                others.push(action);
                if grab_works {
                    capture.advance(CaptureEvent::Done);
                } else {
                    capture.advance(CaptureEvent::Failed);
                }
            }
            CaptureAction::Pause => {
                others.push(action);
                capture.advance(CaptureEvent::Done);
            }
        }
    }
}

#[test]
fn local_mode_is_silent() {
    let mut capture = DeviceCapture::new();
    let mut remote = false;
    assert_eq!(capture.action(), CaptureAction::Fetch);
    capture.advance(CaptureEvent::Fetched(vec![key(codes::KEY_A, 1), key(codes::KEY_A, 0)]));
    assert_eq!(settle(&mut capture, &mut remote, true), (vec![], vec![]));
}

#[test]
fn scroll_lock_toggles_and_is_not_sent() {
    let mut capture = DeviceCapture::new();
    let mut remote = false;

    // What comes with the press still stays local.
    let batch = vec![key(TOGGLE_KEY, 1), key(codes::KEY_A, 1), raw(codes::EV_SYN, 0, 0)];
    capture.advance(CaptureEvent::Fetched(batch));
    let (sent, others) = settle(&mut capture, &mut remote, true);
    assert_eq!(sent, vec![]);
    assert_eq!(others, vec![CaptureAction::StoreMode(true), CaptureAction::Grab]);
    assert!(remote);

    // In remote mode events go out in order, repeats and other events are left out,
    // and the release of the toggle key goes out like any other.
    let batch = vec![
        key(TOGGLE_KEY, 0),
        key(codes::KEY_A, 1),
        key(codes::KEY_A, 2),
        raw(codes::EV_SYN, 0, 0),
        raw(codes::EV_REL, codes::REL_X, 3),
    ];
    capture.advance(CaptureEvent::Fetched(batch.clone()));
    let (sent, others) = settle(&mut capture, &mut remote, true);
    assert_eq!(
        sent,
        vec![
            convert_event(&batch[0]).unwrap(),
            convert_event(&batch[1]).unwrap(),
            convert_event(&batch[4]).unwrap(),
        ]
    );
    assert_eq!(others, vec![]);

    // Two presses in one batch toggle once.
    let batch = vec![key(TOGGLE_KEY, 1), key(TOGGLE_KEY, 1), key(codes::KEY_A, 0)];
    capture.advance(CaptureEvent::Fetched(batch.clone()));
    let (sent, others) = settle(&mut capture, &mut remote, true);
    assert_eq!(sent, vec![convert_event(&batch[2]).unwrap()]);
    assert_eq!(others, vec![CaptureAction::StoreMode(false), CaptureAction::Ungrab]);
    assert!(!remote);
}

#[test]
fn another_device_can_toggle() {
    let mut capture = DeviceCapture::new();
    let mut remote = true;
    capture.advance(CaptureEvent::Fetched(vec![]));
    assert_eq!(settle(&mut capture, &mut remote, true), (vec![], vec![CaptureAction::Grab]));
    remote = false;
    capture.advance(CaptureEvent::Fetched(vec![]));
    assert_eq!(settle(&mut capture, &mut remote, true), (vec![], vec![CaptureAction::Ungrab]));
}

#[test]
fn a_grab_that_fails_is_tried_again() {
    let mut capture = DeviceCapture::new();
    let mut remote = false;
    capture.advance(CaptureEvent::Fetched(vec![key(TOGGLE_KEY, 1)]));
    let (_, others) = settle(&mut capture, &mut remote, false);
    assert_eq!(
        others,
        vec![CaptureAction::StoreMode(true), CaptureAction::Grab, CaptureAction::Grab]
    );
    capture.advance(CaptureEvent::Fetched(vec![]));
    assert_eq!(settle(&mut capture, &mut remote, true), (vec![], vec![CaptureAction::Grab]));
}

#[test]
fn a_device_with_nothing_to_read_is_read_again() {
    let mut capture = DeviceCapture::new();
    let mut remote = false;
    capture.advance(CaptureEvent::WouldBlock);
    assert_eq!(settle(&mut capture, &mut remote, true), (vec![], vec![CaptureAction::Pause]));
    assert_eq!(capture.action(), CaptureAction::Fetch);
}

#[test]
fn a_device_is_given_back_in_the_end() {
    let mut capture = DeviceCapture::new();
    capture.advance(CaptureEvent::ReadFailed);
    assert_eq!(capture.action(), CaptureAction::Stop);

    let mut capture = DeviceCapture::new();
    let mut remote = true;
    capture.advance(CaptureEvent::Fetched(vec![]));
    settle(&mut capture, &mut remote, true);
    capture.advance(CaptureEvent::ReadFailed);
    assert_eq!(capture.action(), CaptureAction::Ungrab);
    capture.advance(CaptureEvent::Done);
    assert_eq!(capture.action(), CaptureAction::Stop);
}

#[test]
fn an_answer_that_does_not_fit_is_asked_for_again() {
    let mut capture = DeviceCapture::new();
    capture.advance(CaptureEvent::Mode(true));
    assert_eq!(capture.action(), CaptureAction::Fetch);
    capture.advance(CaptureEvent::Fetched(vec![key(codes::KEY_A, 1)]));
    capture.advance(CaptureEvent::WouldBlock);
    assert_eq!(capture.action(), CaptureAction::LoadMode);
}
