use samesame::protocol::{
    GestureType, KeyboardEvent, Modifiers, MouseButton, MouseButtonEvent,
};
use samesame::simulator::{
    create_key_input, gesture_inputs, gesture_keys, key_combo_inputs, keyboard_inputs, map_macos_to_windows_key,
    mouse_button_input, mouse_move_input, wheel_input, KeyInput, MouseInput, SimInput,
};

fn down(vk: u16) -> SimInput {
    SimInput::Key(KeyInput { vk, flags: 0 })
}

fn up(vk: u16) -> SimInput {
    SimInput::Key(KeyInput { vk, flags: 2 })
}

#[test]
fn letters_digits_and_specials_map() {
    assert_eq!(map_macos_to_windows_key(0x00), 0x41); // A
    assert_eq!(map_macos_to_windows_key(0x06), 0x5A); // Z
    assert_eq!(map_macos_to_windows_key(0x10), 0x59); // Y
    assert_eq!(map_macos_to_windows_key(0x1D), 0x30); // 0
    assert_eq!(map_macos_to_windows_key(0x12), 0x31); // 1
    assert_eq!(map_macos_to_windows_key(0x24), 0x0D); // Return
    assert_eq!(map_macos_to_windows_key(0x33), 0x08); // Backspace
    assert_eq!(map_macos_to_windows_key(0x75), 0x2E); // Forward delete
    assert_eq!(map_macos_to_windows_key(0x7B), 0x25); // Left
    assert_eq!(map_macos_to_windows_key(0x7A), 0x70); // F1
    assert_eq!(map_macos_to_windows_key(0x6F), 0x7B); // F12
}

#[test]
fn german_keys_map_to_oem_keys() {
    assert_eq!(map_macos_to_windows_key(0x27), 0xDE); // Ä
    assert_eq!(map_macos_to_windows_key(0x29), 0xC0); // Ö
    assert_eq!(map_macos_to_windows_key(0x21), 0xBA); // Ü
    assert_eq!(map_macos_to_windows_key(0x1B), 0xDB); // ß
    assert_eq!(map_macos_to_windows_key(0x1E), 0xBB); // +
    assert_eq!(map_macos_to_windows_key(0x2C), 0xBD); // -
    assert_eq!(map_macos_to_windows_key(0x18), 0xDD); // ´
    assert_eq!(map_macos_to_windows_key(0x2B), 0xBC); // ,
    assert_eq!(map_macos_to_windows_key(0x2F), 0xBE); // .
}

#[test]
fn unknown_keys_pass_through() {
    assert_eq!(map_macos_to_windows_key(0x37), 0x37);
    assert_eq!(map_macos_to_windows_key(0x80), 0x80);
    assert_eq!(map_macos_to_windows_key(u16::MAX), u16::MAX);
}

#[test]
fn key_record_flags() {
    assert_eq!(create_key_input(0x41, true, false), SimInput::Key(KeyInput { vk: 0x41, flags: 0 }));
    assert_eq!(create_key_input(0x41, false, false), SimInput::Key(KeyInput { vk: 0x41, flags: 2 }));
    assert_eq!(create_key_input(0x41, true, true), SimInput::Key(KeyInput { vk: 0x41, flags: 4 }));
    assert_eq!(create_key_input(0x41, false, true), SimInput::Key(KeyInput { vk: 0x41, flags: 6 }));
}

#[test]
fn key_press_with_command_presses_ctrl_first() {
    let e = KeyboardEvent {
        key_code: 0x08, // C
        character: Some('c'),
        pressed: true,
        modifiers: Modifiers { shift: false, control: false, alt: false, command: true },
    };
    assert_eq!(keyboard_inputs(&e), vec![down(0x11), down(0x43)]);
}

#[test]
fn key_release_releases_modifiers_in_reverse() {
    let e = KeyboardEvent {
        key_code: 0x00,
        character: None,
        pressed: false,
        modifiers: Modifiers { shift: true, control: true, alt: true, command: true },
    };
    assert_eq!(
        keyboard_inputs(&e),
        vec![
            down(0x11), down(0x10), down(0x12), down(0x5B),
            up(0x41),
            up(0x5B), up(0x12), up(0x10), up(0x11),
        ]
    );
}

#[test]
fn plain_key_is_one_record() {
    let e = KeyboardEvent {
        key_code: 0x31,
        character: Some(' '),
        pressed: true,
        modifiers: Modifiers { shift: false, control: false, alt: false, command: false },
    };
    assert_eq!(keyboard_inputs(&e), vec![down(0x20)]);
}

#[test]
fn mouse_button_records() {
    let rec = |data, flags| SimInput::Mouse(MouseInput { dx: 0, dy: 0, mouse_data: data, flags });
    let ev = |button, pressed| MouseButtonEvent { button, pressed };
    assert_eq!(mouse_button_input(&ev(MouseButton::Left, true)), rec(0, 0x0002));
    assert_eq!(mouse_button_input(&ev(MouseButton::Left, false)), rec(0, 0x0004));
    assert_eq!(mouse_button_input(&ev(MouseButton::Right, true)), rec(0, 0x0008));
    assert_eq!(mouse_button_input(&ev(MouseButton::Right, false)), rec(0, 0x0010));
    assert_eq!(mouse_button_input(&ev(MouseButton::Middle, true)), rec(0, 0x0020));
    assert_eq!(mouse_button_input(&ev(MouseButton::Middle, false)), rec(0, 0x0040));
    assert_eq!(mouse_button_input(&ev(MouseButton::Button4, true)), rec(1, 0x0080));
    assert_eq!(mouse_button_input(&ev(MouseButton::Button5, false)), rec(2, 0x0100));
}

#[test]
fn move_and_wheel_records() {
    assert_eq!(
        mouse_move_input(32767, 65535),
        SimInput::Mouse(MouseInput { dx: 32767, dy: 65535, mouse_data: 0, flags: 0xC001 })
    );
    assert_eq!(
        wheel_input(-120, false),
        SimInput::Mouse(MouseInput { dx: 0, dy: 0, mouse_data: 0xFFFF_FF88, flags: 0x0800 })
    );
    assert_eq!(
        wheel_input(3, true),
        SimInput::Mouse(MouseInput { dx: 0, dy: 0, mouse_data: 3, flags: 0x1000 })
    );
}

#[test]
fn gestures_map_to_shortcuts() {
    assert_eq!(gesture_keys(GestureType::SwipeLeft), Some(vec![0xA2, 0x5B, 0x25]));
    assert_eq!(gesture_keys(GestureType::SwipeRight), Some(vec![0xA2, 0x5B, 0x27]));
    assert_eq!(gesture_keys(GestureType::SwipeUp), Some(vec![0x5B, 0x09]));
    assert_eq!(gesture_keys(GestureType::SwipeDown), Some(vec![0x5B, 0x44]));
    assert_eq!(gesture_keys(GestureType::ZoomIn(1.5f64.to_bits())), None);
    assert_eq!(gesture_keys(GestureType::ZoomOut(0.5f64.to_bits())), None);
}

#[test]
fn combos_press_in_order_and_release_in_reverse() {
    assert_eq!(
        key_combo_inputs(&[0xA2, 0x5B, 0x25]),
        vec![down(0xA2), down(0x5B), down(0x25), up(0x25), up(0x5B), up(0xA2)]
    );
    assert_eq!(key_combo_inputs(&[]), vec![]);
    assert_eq!(key_combo_inputs(&[0x41]), vec![down(0x41), up(0x41)]);
}

#[test]
fn gestures_become_key_combos() {
    assert_eq!(
        gesture_inputs(GestureType::SwipeDown),
        Some(vec![down(0x5B), down(0x44), up(0x44), up(0x5B)])
    );
    assert_eq!(
        gesture_inputs(GestureType::SwipeRight),
        Some(vec![down(0xA2), down(0x5B), down(0x27), up(0x27), up(0x5B), up(0xA2)])
    );
    assert_eq!(gesture_inputs(GestureType::ZoomIn(2.0f64.to_bits())), None);
}
