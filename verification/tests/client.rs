use samesame::client::{
    convert_cg_event_to_input_event, extract_modifiers, handle_event, is_toggle_hotkey,
    process_gesture, EventType, TapDecision, TapEvent, FLAG_ALTERNATE, FLAG_COMMAND,
    FLAG_CONTROL, FLAG_SHIFT,
};
use samesame::protocol::{
    GestureEvent, GestureType, InputEvent, KeyboardEvent, Message, Modifiers, MouseButton,
    MouseButtonEvent, MouseMoveEvent, MouseScrollEvent,
};
use samesame::state::{AppState, InputMode};

fn tap(event_type: EventType) -> TapEvent {
    TapEvent {
        event_type,
        keycode: 0,
        flags: 0,
        character: None,
        pointer: MouseMoveEvent { x: 0, y: 0, delta_x: 0, delta_y: 0 },
        button_number: 0,
        scroll_delta_x: 0,
        scroll_delta_y: 0,
        scroll_continuous: 0,
    }
}

fn key(event_type: EventType, keycode: i64, flags: u64) -> TapEvent {
    TapEvent { keycode, flags, character: Some('x'), ..tap(event_type) }
}

fn option_one() -> TapEvent {
    key(EventType::KeyDown, 18, FLAG_ALTERNATE)
}

fn no_mods() -> Modifiers {
    Modifiers { shift: false, control: false, alt: false, command: false }
}

#[test]
fn option_one_is_the_hotkey() {
    assert!(is_toggle_hotkey(&option_one()));
    // 0x80000 is the Option flag
    assert!(is_toggle_hotkey(&key(EventType::KeyDown, 18, 0x80000 | FLAG_SHIFT)));
}

#[test]
fn other_keys_are_not_the_hotkey() {
    assert!(!is_toggle_hotkey(&key(EventType::KeyDown, 18, 0)));
    assert!(!is_toggle_hotkey(&key(EventType::KeyUp, 18, FLAG_ALTERNATE)));
    assert!(!is_toggle_hotkey(&key(EventType::KeyDown, 19, FLAG_ALTERNATE)));
    assert!(!is_toggle_hotkey(&key(EventType::KeyDown, 18, FLAG_COMMAND)));
}

#[test]
fn modifiers_are_read_from_flags() {
    assert_eq!(extract_modifiers(0), no_mods());
    assert_eq!(
        extract_modifiers(0x0002_0000 | 0x0010_0000),
        Modifiers { shift: true, control: false, alt: false, command: true }
    );
    assert_eq!(
        extract_modifiers(FLAG_CONTROL | FLAG_ALTERNATE | 0x100),
        Modifiers { shift: false, control: true, alt: true, command: false }
    );
    assert_eq!(
        extract_modifiers(u64::MAX),
        Modifiers { shift: true, control: true, alt: true, command: true }
    );
}

#[test]
fn key_down_carries_its_character_and_key_up_does_not() {
    let down = convert_cg_event_to_input_event(&key(EventType::KeyDown, 0x00, FLAG_SHIFT));
    assert_eq!(
        down,
        Some(InputEvent::Keyboard(KeyboardEvent {
            key_code: 0,
            character: Some('x'),
            pressed: true,
            modifiers: Modifiers { shift: true, control: false, alt: false, command: false },
        }))
    );
    let up = convert_cg_event_to_input_event(&key(EventType::KeyUp, 0x00, 0));
    assert_eq!(
        up,
        Some(InputEvent::Keyboard(KeyboardEvent {
            key_code: 0,
            character: None,
            pressed: false,
            modifiers: no_mods(),
        }))
    );
}

#[test]
fn key_code_is_truncated_to_16_bits() {
    let e = convert_cg_event_to_input_event(&key(EventType::KeyUp, 0x1_0024, 0));
    match e {
        Some(InputEvent::Keyboard(k)) => assert_eq!(k.key_code, 0x24),
        _ => panic!("expected a keyboard event"),
    }
}

#[test]
fn pointer_moves_and_drags_carry_the_pointer() {
    let p = MouseMoveEvent {
        x: 0.5f64.to_bits(),
        y: 0.25f64.to_bits(),
        delta_x: 3.0f64.to_bits(),
        delta_y: (-2.0f64).to_bits(),
    };
    for t in [EventType::MouseMoved, EventType::LeftMouseDragged, EventType::RightMouseDragged] {
        let e = TapEvent { pointer: p, ..tap(t) };
        assert_eq!(convert_cg_event_to_input_event(&e), Some(InputEvent::MouseMove(p)));
    }
}

#[test]
fn buttons_are_recognised() {
    let b = |button, pressed| Some(InputEvent::MouseButton(MouseButtonEvent { button, pressed }));
    assert_eq!(convert_cg_event_to_input_event(&tap(EventType::LeftMouseDown)), b(MouseButton::Left, true));
    assert_eq!(convert_cg_event_to_input_event(&tap(EventType::LeftMouseUp)), b(MouseButton::Left, false));
    assert_eq!(convert_cg_event_to_input_event(&tap(EventType::RightMouseDown)), b(MouseButton::Right, true));
    assert_eq!(convert_cg_event_to_input_event(&tap(EventType::RightMouseUp)), b(MouseButton::Right, false));
    let other = |t, n| TapEvent { button_number: n, ..tap(t) };
    assert_eq!(convert_cg_event_to_input_event(&other(EventType::OtherMouseDown, 2)), b(MouseButton::Middle, true));
    assert_eq!(convert_cg_event_to_input_event(&other(EventType::OtherMouseUp, 3)), b(MouseButton::Button4, false));
    assert_eq!(convert_cg_event_to_input_event(&other(EventType::OtherMouseDown, 4)), b(MouseButton::Button5, true));
    assert_eq!(convert_cg_event_to_input_event(&other(EventType::OtherMouseDown, 5)), None);
    assert_eq!(convert_cg_event_to_input_event(&other(EventType::OtherMouseUp, 0)), None);
}

#[test]
fn scrolls_keep_deltas_and_continuity() {
    let e = TapEvent {
        scroll_delta_x: 1.0f64.to_bits(),
        scroll_delta_y: (-4.0f64).to_bits(),
        scroll_continuous: 1,
        ..tap(EventType::ScrollWheel)
    };
    assert_eq!(
        convert_cg_event_to_input_event(&e),
        Some(InputEvent::MouseScroll(MouseScrollEvent {
            delta_x: 1.0f64.to_bits(),
            delta_y: (-4.0f64).to_bits(),
            is_pixel_based: true,
        }))
    );
    let wheel = TapEvent { scroll_continuous: 0, ..e };
    match convert_cg_event_to_input_event(&wheel) {
        Some(InputEvent::MouseScroll(s)) => assert!(!s.is_pixel_based),
        _ => panic!("expected a scroll"),
    }
}

#[test]
fn other_events_are_not_converted() {
    assert_eq!(convert_cg_event_to_input_event(&tap(EventType::FlagsChanged)), None);
    assert_eq!(convert_cg_event_to_input_event(&tap(EventType::OtherMouseDragged)), None);
    assert_eq!(convert_cg_event_to_input_event(&tap(EventType::Other)), None);
}

#[test]
fn hotkey_switches_mode_and_passes() {
    let mut s: AppState<u8> = AppState::new();
    assert_eq!(handle_event(&mut s, &option_one()), TapDecision::Pass);
    assert_eq!(s.mode, InputMode::Windows);
    assert_eq!(s.sequence, 0);
    assert_eq!(handle_event(&mut s, &option_one()), TapDecision::Pass);
    assert_eq!(s.mode, InputMode::MacOS);
}

#[test]
fn macos_mode_passes_everything() {
    let mut s: AppState<u8> = AppState::new();
    s.network_client = Some(1);
    assert_eq!(handle_event(&mut s, &key(EventType::KeyDown, 0, 0)), TapDecision::Pass);
    assert_eq!(handle_event(&mut s, &tap(EventType::LeftMouseDown)), TapDecision::Pass);
    assert_eq!(s.sequence, 0);
}

#[test]
fn windows_mode_without_connection_blocks() {
    let mut s: AppState<u8> = AppState::new();
    s.mode = InputMode::Windows;
    assert_eq!(handle_event(&mut s, &key(EventType::KeyDown, 0, 0)), TapDecision::Block);
    assert_eq!(handle_event(&mut s, &tap(EventType::Other)), TapDecision::Block);
    assert_eq!(s.sequence, 0);
}

#[test]
fn windows_mode_forwards_with_consecutive_sequences() {
    let mut s: AppState<u8> = AppState::new();
    s.network_client = Some(1);
    s.mode = InputMode::Windows;
    let d1 = handle_event(&mut s, &tap(EventType::LeftMouseDown));
    let d2 = handle_event(&mut s, &tap(EventType::LeftMouseUp));
    assert_eq!(
        d1,
        TapDecision::Forward(Message::new(
            1,
            InputEvent::MouseButton(MouseButtonEvent { button: MouseButton::Left, pressed: true })
        ))
    );
    assert_eq!(
        d2,
        TapDecision::Forward(Message::new(
            2,
            InputEvent::MouseButton(MouseButtonEvent { button: MouseButton::Left, pressed: false })
        ))
    );
    assert_eq!(s.sequence, 2);
}

#[test]
fn windows_mode_blocks_what_it_cannot_convert() {
    let mut s: AppState<u8> = AppState::new();
    s.network_client = Some(1);
    s.mode = InputMode::Windows;
    assert_eq!(handle_event(&mut s, &tap(EventType::FlagsChanged)), TapDecision::Block);
    assert_eq!(handle_event(&mut s, &tap(EventType::OtherMouseDragged)), TapDecision::Block);
    let button_six = TapEvent { button_number: 5, ..tap(EventType::OtherMouseDown) };
    assert_eq!(handle_event(&mut s, &button_six), TapDecision::Block);
    assert_eq!(s.sequence, 0);
    assert_eq!(s.mode, InputMode::Windows);
}

#[test]
fn gestures_are_sent_only_while_forwarding() {
    let mut s: AppState<u8> = AppState::new();
    assert_eq!(process_gesture(&mut s, GestureType::SwipeLeft), None);
    s.mode = InputMode::Windows;
    assert_eq!(process_gesture(&mut s, GestureType::SwipeLeft), None);
    s.network_client = Some(3);
    s.sequence = 10;
    assert_eq!(
        process_gesture(&mut s, GestureType::SwipeUp),
        Some(Message::new(11, InputEvent::Gesture(GestureEvent { gesture_type: GestureType::SwipeUp })))
    );
    assert_eq!(s.sequence, 11);
    assert!(s.should_forward());
}

#[test]
fn next_sequence_counts_up() {
    let mut s: AppState<u8> = AppState::new();
    assert_eq!(s.next_sequence(), 1);
    assert_eq!(s.next_sequence(), 2);
    assert!(!s.should_forward());
}
