//! Translation of received events into Windows input records: the key-code
//! table, the order in which keys and modifiers go down and up, mouse button
//! and wheel records, and the shortcuts that gestures stand for.
use vstd::prelude::*;
use crate::protocol::{
    GestureType, KeyboardEvent, Modifiers, MouseButton, MouseButtonEvent, WindowsModifiers,
};

verus! {

// Windows virtual-key codes.
pub const VK_BACK: u16 = 0x08;
pub const VK_TAB: u16 = 0x09;
pub const VK_RETURN: u16 = 0x0D;
pub const VK_SHIFT: u16 = 0x10;
pub const VK_CONTROL: u16 = 0x11;
pub const VK_MENU: u16 = 0x12;
pub const VK_ESCAPE: u16 = 0x1B;
pub const VK_SPACE: u16 = 0x20;
pub const VK_PRIOR: u16 = 0x21;
pub const VK_NEXT: u16 = 0x22;
pub const VK_END: u16 = 0x23;
pub const VK_HOME: u16 = 0x24;
pub const VK_LEFT: u16 = 0x25;
pub const VK_UP: u16 = 0x26;
pub const VK_RIGHT: u16 = 0x27;
pub const VK_DOWN: u16 = 0x28;
pub const VK_DELETE: u16 = 0x2E;
pub const VK_D: u16 = 0x44;
pub const VK_LWIN: u16 = 0x5B;
pub const VK_F1: u16 = 0x70;
pub const VK_F2: u16 = 0x71;
pub const VK_F3: u16 = 0x72;
pub const VK_F4: u16 = 0x73;
pub const VK_F5: u16 = 0x74;
pub const VK_F6: u16 = 0x75;
pub const VK_F7: u16 = 0x76;
pub const VK_F8: u16 = 0x77;
pub const VK_F9: u16 = 0x78;
pub const VK_F10: u16 = 0x79;
pub const VK_F11: u16 = 0x7A;
pub const VK_F12: u16 = 0x7B;
pub const VK_LCONTROL: u16 = 0xA2;
pub const VK_OEM_1: u16 = 0xBA;
pub const VK_OEM_PLUS: u16 = 0xBB;
pub const VK_OEM_COMMA: u16 = 0xBC;
pub const VK_OEM_MINUS: u16 = 0xBD;
pub const VK_OEM_PERIOD: u16 = 0xBE;
pub const VK_OEM_3: u16 = 0xC0;
pub const VK_OEM_4: u16 = 0xDB;
pub const VK_OEM_6: u16 = 0xDD;
pub const VK_OEM_7: u16 = 0xDE;

// Keyboard record flags.
pub const KEYEVENTF_KEYUP: u32 = 0x0002;
pub const KEYEVENTF_UNICODE: u32 = 0x0004;

// Mouse record flags.
pub const MOUSEEVENTF_MOVE: u32 = 0x0001;
pub const MOUSEEVENTF_LEFTDOWN: u32 = 0x0002;
pub const MOUSEEVENTF_LEFTUP: u32 = 0x0004;
pub const MOUSEEVENTF_RIGHTDOWN: u32 = 0x0008;
pub const MOUSEEVENTF_RIGHTUP: u32 = 0x0010;
pub const MOUSEEVENTF_MIDDLEDOWN: u32 = 0x0020;
pub const MOUSEEVENTF_MIDDLEUP: u32 = 0x0040;
pub const MOUSEEVENTF_XDOWN: u32 = 0x0080;
pub const MOUSEEVENTF_XUP: u32 = 0x0100;
pub const MOUSEEVENTF_WHEEL: u32 = 0x0800;
pub const MOUSEEVENTF_HWHEEL: u32 = 0x1000;
pub const MOUSEEVENTF_VIRTUALDESK: u32 = 0x4000;
pub const MOUSEEVENTF_ABSOLUTE: u32 = 0x8000;

/// Mouse data that names the first extra button.
pub const XBUTTON1: u32 = 0x0001;
/// Mouse data that names the second extra button.
pub const XBUTTON2: u32 = 0x0002;

/// A keyboard input record.
#[derive(Clone, Copy, Debug, PartialEq, Eq, Structural)]
pub struct KeyInput {
    pub vk: u16,
    pub flags: u32,
}

/// A mouse input record.
#[derive(Clone, Copy, Debug, PartialEq, Eq, Structural)]
pub struct MouseInput {
    pub dx: i32,
    pub dy: i32,
    pub mouse_data: u32,
    pub flags: u32,
}

/// One input record for the system's input queue.
#[derive(Clone, Copy, Debug, PartialEq, Eq, Structural)]
pub enum SimInput {
    Key(KeyInput),
    Mouse(MouseInput),
}

/// The flags of a key record.
pub open spec fn key_flags(is_press: bool, is_unicode: bool) -> u32 {
    (if is_press {
        0u32
    } else {
        KEYEVENTF_KEYUP
    }) | (if is_unicode {
        KEYEVENTF_UNICODE
    } else {
        0u32
    })
}

/// The record that presses key `vk`.
pub open spec fn key_down(vk: u16) -> SimInput {
    SimInput::Key(KeyInput { vk, flags: key_flags(true, false) })
}

/// The record that releases key `vk`.
pub open spec fn key_up(vk: u16) -> SimInput {
    SimInput::Key(KeyInput { vk, flags: key_flags(false, false) })
}

/// A key record for `vk`, pressed or released, optionally as a Unicode character.
pub fn create_key_input(vk_code: u16, is_press: bool, is_unicode: bool) -> (r: SimInput)
    ensures
        r == SimInput::Key(KeyInput { vk: vk_code, flags: key_flags(is_press, is_unicode) }),
{
    let press_flags: u32 = if is_press {
        0
    } else {
        KEYEVENTF_KEYUP
    };
    let unicode_flags: u32 = if is_unicode {
        KEYEVENTF_UNICODE
    } else {
        0
    };
    SimInput::Key(KeyInput { vk: vk_code, flags: press_flags | unicode_flags })
}

/// The Windows key that a macOS key code stands for, where the table knows it.
pub open spec fn known_windows_key(k: u16) -> Option<u16> {
    match k {
        // Letters
        0x00 => Some(0x41u16),  // A
        0x0B => Some(0x42u16),  // B
        0x08 => Some(0x43u16),  // C
        0x02 => Some(0x44u16),  // D
        0x0E => Some(0x45u16),  // E
        0x03 => Some(0x46u16),  // F
        0x05 => Some(0x47u16),  // G
        0x04 => Some(0x48u16),  // H
        0x22 => Some(0x49u16),  // I
        0x26 => Some(0x4Au16),  // J
        0x28 => Some(0x4Bu16),  // K
        0x25 => Some(0x4Cu16),  // L
        0x2E => Some(0x4Du16),  // M
        0x2D => Some(0x4Eu16),  // N
        0x1F => Some(0x4Fu16),  // O
        0x23 => Some(0x50u16),  // P
        0x0C => Some(0x51u16),  // Q
        0x0F => Some(0x52u16),  // R
        0x01 => Some(0x53u16),  // S
        0x11 => Some(0x54u16),  // T
        0x20 => Some(0x55u16),  // U
        0x09 => Some(0x56u16),  // V
        0x0D => Some(0x57u16),  // W
        0x07 => Some(0x58u16),  // X
        0x10 => Some(0x59u16),  // Y
        0x06 => Some(0x5Au16),  // Z
        // Digits
        0x1D => Some(0x30u16),  // 0
        0x12 => Some(0x31u16),  // 1
        0x13 => Some(0x32u16),  // 2
        0x14 => Some(0x33u16),  // 3
        0x15 => Some(0x34u16),  // 4
        0x17 => Some(0x35u16),  // 5
        0x16 => Some(0x36u16),  // 6
        0x1A => Some(0x37u16),  // 7
        0x1C => Some(0x38u16),  // 8
        0x19 => Some(0x39u16),  // 9
        // Special keys
        0x24 => Some(VK_RETURN),
        0x30 => Some(VK_TAB),
        0x31 => Some(VK_SPACE),
        0x33 => Some(VK_BACK),
        0x35 => Some(VK_ESCAPE),
        0x75 => Some(VK_DELETE),
        0x73 => Some(VK_HOME),
        0x77 => Some(VK_END),
        0x74 => Some(VK_PRIOR),
        0x79 => Some(VK_NEXT),
        // Arrows
        0x7B => Some(VK_LEFT),
        0x7C => Some(VK_RIGHT),
        0x7E => Some(VK_UP),
        0x7D => Some(VK_DOWN),
        // Function keys
        0x7A => Some(VK_F1),
        0x78 => Some(VK_F2),
        0x63 => Some(VK_F3),
        0x76 => Some(VK_F4),
        0x60 => Some(VK_F5),
        0x61 => Some(VK_F6),
        0x62 => Some(VK_F7),
        0x64 => Some(VK_F8),
        0x65 => Some(VK_F9),
        0x6D => Some(VK_F10),
        0x67 => Some(VK_F11),
        0x6F => Some(VK_F12),
        // Punctuation: each key of the German Mac layout goes to the key of the
        // German Windows layout that types the same character
        0x27 => Some(VK_OEM_7),  // Ä
        0x29 => Some(VK_OEM_3),  // Ö
        0x21 => Some(VK_OEM_1),  // Ü
        0x1B => Some(VK_OEM_4),  // ß
        0x1E => Some(VK_OEM_PLUS),  // +
        0x2C => Some(VK_OEM_MINUS),  // -
        0x18 => Some(VK_OEM_6),  // ´
        0x2B => Some(VK_OEM_COMMA),  // ,
        0x2F => Some(VK_OEM_PERIOD),  // .
        _ => None,
    }
}

/// The Windows key for a macOS key code: the table's entry, or the code itself.
pub open spec fn windows_key(k: u16) -> u16 {
    match known_windows_key(k) {
        Some(v) => v,
        None => k,
    }
}

/// Map macOS virtual key codes to Windows virtual key codes; a code that the
/// table does not know passes through unchanged.
pub fn map_macos_to_windows_key(macos_key: u16) -> (r: u16)
    ensures
        r == windows_key(macos_key),
{
    match macos_key {
        0x00 => 0x41,
        0x0B => 0x42,
        0x08 => 0x43,
        0x02 => 0x44,
        0x0E => 0x45,
        0x03 => 0x46,
        0x05 => 0x47,
        0x04 => 0x48,
        0x22 => 0x49,
        0x26 => 0x4A,
        0x28 => 0x4B,
        0x25 => 0x4C,
        0x2E => 0x4D,
        0x2D => 0x4E,
        0x1F => 0x4F,
        0x23 => 0x50,
        0x0C => 0x51,
        0x0F => 0x52,
        0x01 => 0x53,
        0x11 => 0x54,
        0x20 => 0x55,
        0x09 => 0x56,
        0x0D => 0x57,
        0x07 => 0x58,
        0x10 => 0x59,
        0x06 => 0x5A,
        0x1D => 0x30,
        0x12 => 0x31,
        0x13 => 0x32,
        0x14 => 0x33,
        0x15 => 0x34,
        0x17 => 0x35,
        0x16 => 0x36,
        0x1A => 0x37,
        0x1C => 0x38,
        0x19 => 0x39,
        0x24 => VK_RETURN,
        0x30 => VK_TAB,
        0x31 => VK_SPACE,
        0x33 => VK_BACK,
        0x35 => VK_ESCAPE,
        0x75 => VK_DELETE,
        0x73 => VK_HOME,
        0x77 => VK_END,
        0x74 => VK_PRIOR,
        0x79 => VK_NEXT,
        0x7B => VK_LEFT,
        0x7C => VK_RIGHT,
        0x7E => VK_UP,
        0x7D => VK_DOWN,
        0x7A => VK_F1,
        0x78 => VK_F2,
        0x63 => VK_F3,
        0x76 => VK_F4,
        0x60 => VK_F5,
        0x61 => VK_F6,
        0x62 => VK_F7,
        0x64 => VK_F8,
        0x65 => VK_F9,
        0x6D => VK_F10,
        0x67 => VK_F11,
        0x6F => VK_F12,
        0x27 => VK_OEM_7,
        0x29 => VK_OEM_3,
        0x21 => VK_OEM_1,
        0x1B => VK_OEM_4,
        0x1E => VK_OEM_PLUS,
        0x2C => VK_OEM_MINUS,
        0x18 => VK_OEM_6,
        0x2B => VK_OEM_COMMA,
        0x2F => VK_OEM_PERIOD,
        _ => macos_key,
    }
}

/// Distinct macOS keys that the table knows go to distinct Windows keys: no two
/// known keys are confused.
pub proof fn lemma_known_keys_distinct(a: u16, b: u16)
    requires
        known_windows_key(a) is Some,
        known_windows_key(b) is Some,
        known_windows_key(a) == known_windows_key(b),
    ensures
        a == b,
{
}

/// Records that press the held Windows modifiers: Ctrl, Shift, Alt, Win.
pub open spec fn modifier_presses(w: WindowsModifiers) -> Seq<SimInput> {
    (if w.ctrl {
        seq![key_down(VK_CONTROL)]
    } else {
        seq![]
    }) + (if w.shift {
        seq![key_down(VK_SHIFT)]
    } else {
        seq![]
    }) + (if w.alt {
        seq![key_down(VK_MENU)]
    } else {
        seq![]
    }) + (if w.win {
        seq![key_down(VK_LWIN)]
    } else {
        seq![]
    })
}

/// Records that release the held Windows modifiers: Win, Alt, Shift, Ctrl.
pub open spec fn modifier_releases(w: WindowsModifiers) -> Seq<SimInput> {
    (if w.win {
        seq![key_up(VK_LWIN)]
    } else {
        seq![]
    }) + (if w.alt {
        seq![key_up(VK_MENU)]
    } else {
        seq![]
    }) + (if w.shift {
        seq![key_up(VK_SHIFT)]
    } else {
        seq![]
    }) + (if w.ctrl {
        seq![key_up(VK_CONTROL)]
    } else {
        seq![]
    })
}

/// The records for a key event: the held modifiers go down, then the key goes
/// down or up; when the key goes up the modifiers are released after it.
pub open spec fn keyboard_records(e: KeyboardEvent) -> Seq<SimInput> {
    let w = e.modifiers.windows_view();
    let vk = windows_key(e.key_code);
    if e.pressed {
        modifier_presses(w).push(key_down(vk))
    } else {
        modifier_presses(w).push(key_up(vk)) + modifier_releases(w)
    }
}

/// The record that undoes a key record: the same key, released.
pub open spec fn release_of(i: SimInput) -> SimInput {
    match i {
        SimInput::Key(k) => key_up(k.vk),
        SimInput::Mouse(m) => SimInput::Mouse(m),
    }
}

/// The records for a keyboard event (modifiers mapped to their Windows keys).
pub fn keyboard_inputs(event: &KeyboardEvent) -> (r: Vec<SimInput>)
    ensures
        r@ == keyboard_records(*event),
{
    let mut inputs: Vec<SimInput> = Vec::new();
    let win_mods = event.modifiers.to_windows();
    // Press modifiers first
    if win_mods.ctrl {
        inputs.push(create_key_input(VK_CONTROL, true, false));
    }
    if win_mods.shift {
        inputs.push(create_key_input(VK_SHIFT, true, false));
    }
    if win_mods.alt {
        inputs.push(create_key_input(VK_MENU, true, false));
    }
    if win_mods.win {
        inputs.push(create_key_input(VK_LWIN, true, false));
    }
    assert(inputs@ =~= modifier_presses(win_mods));
    let vk_code = map_macos_to_windows_key(event.key_code);
    if event.pressed {
        inputs.push(create_key_input(vk_code, true, false));
    } else {
        inputs.push(create_key_input(vk_code, false, false));
    }
    let ghost before_release = inputs@;
    // Release modifiers after the key, in reverse order
    if !event.pressed {
        if win_mods.win {
            inputs.push(create_key_input(VK_LWIN, false, false));
        }
        if win_mods.alt {
            inputs.push(create_key_input(VK_MENU, false, false));
        }
        if win_mods.shift {
            inputs.push(create_key_input(VK_SHIFT, false, false));
        }
        if win_mods.ctrl {
            inputs.push(create_key_input(VK_CONTROL, false, false));
        }
        assert(inputs@ =~= before_release + modifier_releases(win_mods));
    } else {
        assert(inputs@ =~= before_release);
    }
    inputs
}

/// The modifiers released after a key goes up are exactly the ones pressed before
/// it, in reverse order.
pub proof fn lemma_modifiers_released_in_reverse(w: WindowsModifiers)
    ensures
        modifier_releases(w) =~= modifier_presses(w).reverse().map_values(|i: SimInput| release_of(i)),
{
    let p = modifier_presses(w);
    let r = modifier_releases(w);
    let q = p.reverse().map_values(|i: SimInput| release_of(i));
    assert(r.len() == q.len());
    assert forall|k: int| 0 <= k < r.len() implies r[k] == q[k] by {
        assert(q[k] == release_of(p.reverse()[k]));
    }
}

/// The mouse-button flags for a button going down or up.
pub open spec fn button_flags(button: MouseButton, pressed: bool) -> u32 {
    match button {
        MouseButton::Left => if pressed {
            MOUSEEVENTF_LEFTDOWN
        } else {
            MOUSEEVENTF_LEFTUP
        },
        MouseButton::Right => if pressed {
            MOUSEEVENTF_RIGHTDOWN
        } else {
            MOUSEEVENTF_RIGHTUP
        },
        MouseButton::Middle => if pressed {
            MOUSEEVENTF_MIDDLEDOWN
        } else {
            MOUSEEVENTF_MIDDLEUP
        },
        MouseButton::Button4 | MouseButton::Button5 => if pressed {
            MOUSEEVENTF_XDOWN
        } else {
            MOUSEEVENTF_XUP
        },
    }
}

/// The mouse data that names an extra button (0 for the others).
pub open spec fn button_data(button: MouseButton) -> u32 {
    match button {
        MouseButton::Button4 => XBUTTON1,
        MouseButton::Button5 => XBUTTON2,
        _ => 0u32,
    }
}

/// The record for a mouse button event.
pub fn mouse_button_input(event: &MouseButtonEvent) -> (r: SimInput)
    ensures
        r == SimInput::Mouse(
            MouseInput {
                dx: 0,
                dy: 0,
                mouse_data: button_data(event.button),
                flags: button_flags(event.button, event.pressed),
            },
        ),
{
    let flags = match event.button {
        MouseButton::Left => if event.pressed {
            MOUSEEVENTF_LEFTDOWN
        } else {
            MOUSEEVENTF_LEFTUP
        },
        MouseButton::Right => if event.pressed {
            MOUSEEVENTF_RIGHTDOWN
        } else {
            MOUSEEVENTF_RIGHTUP
        },
        MouseButton::Middle => if event.pressed {
            MOUSEEVENTF_MIDDLEDOWN
        } else {
            MOUSEEVENTF_MIDDLEUP
        },
        MouseButton::Button4 | MouseButton::Button5 => if event.pressed {
            MOUSEEVENTF_XDOWN
        } else {
            MOUSEEVENTF_XUP
        },
    };
    let mouse_data = match event.button {
        MouseButton::Button4 => XBUTTON1,
        MouseButton::Button5 => XBUTTON2,
        _ => 0,
    };
    SimInput::Mouse(MouseInput { dx: 0, dy: 0, mouse_data, flags })
}

/// The record that moves the pointer to an absolute position on the virtual
/// desktop (coordinates scaled to 0..=65535).
pub fn mouse_move_input(abs_x: i32, abs_y: i32) -> (r: SimInput)
    ensures
        r == SimInput::Mouse(
            MouseInput {
                dx: abs_x,
                dy: abs_y,
                mouse_data: 0,
                flags: MOUSEEVENTF_MOVE | MOUSEEVENTF_ABSOLUTE | MOUSEEVENTF_VIRTUALDESK,
            },
        ),
{
    SimInput::Mouse(
        MouseInput {
            dx: abs_x,
            dy: abs_y,
            mouse_data: 0,
            flags: MOUSEEVENTF_MOVE | MOUSEEVENTF_ABSOLUTE | MOUSEEVENTF_VIRTUALDESK,
        },
    )
}

/// The record that turns the wheel by `delta` (vertical or horizontal); the
/// signed amount travels as its two's-complement bits.
pub fn wheel_input(delta: i32, horizontal: bool) -> (r: SimInput)
    ensures
        r == SimInput::Mouse(
            MouseInput {
                dx: 0,
                dy: 0,
                mouse_data: delta as u32,
                flags: if horizontal {
                    MOUSEEVENTF_HWHEEL
                } else {
                    MOUSEEVENTF_WHEEL
                },
            },
        ),
{
    let flags = if horizontal {
        MOUSEEVENTF_HWHEEL
    } else {
        MOUSEEVENTF_WHEEL
    };
    SimInput::Mouse(MouseInput { dx: 0, dy: 0, mouse_data: delta as u32, flags })
}

/// The Windows shortcut that a gesture stands for; zoom has none.
pub open spec fn gesture_shortcut(g: GestureType) -> Option<Seq<u16>> {
    match g {
        GestureType::SwipeLeft => Some(seq![VK_LCONTROL, VK_LWIN, VK_LEFT]),
        GestureType::SwipeRight => Some(seq![VK_LCONTROL, VK_LWIN, VK_RIGHT]),
        GestureType::SwipeUp => Some(seq![VK_LWIN, VK_TAB]),
        GestureType::SwipeDown => Some(seq![VK_LWIN, VK_D]),
        GestureType::ZoomIn(_) | GestureType::ZoomOut(_) => None,
    }
}

/// The keys of the shortcut that a gesture stands for: swipe left and right
/// switch virtual desktops (Ctrl+Win+Left/Right), swipe up opens Task View
/// (Win+Tab), swipe down shows the desktop (Win+D). Zoom has no shortcut.
pub fn gesture_keys(gesture: GestureType) -> (r: Option<Vec<u16>>)
    ensures
        match r {
            Some(v) => gesture_shortcut(gesture) == Some(v@),
            None => gesture_shortcut(gesture) is None,
        },
{
    match gesture {
        GestureType::SwipeLeft => Some(vec![VK_LCONTROL, VK_LWIN, VK_LEFT]),
        GestureType::SwipeRight => Some(vec![VK_LCONTROL, VK_LWIN, VK_RIGHT]),
        GestureType::SwipeUp => Some(vec![VK_LWIN, VK_TAB]),
        GestureType::SwipeDown => Some(vec![VK_LWIN, VK_D]),
        GestureType::ZoomIn(_) | GestureType::ZoomOut(_) => None,
    }
}

/// The records of a key combination: every key pressed in order, then every key
/// released in reverse order.
pub open spec fn combo_records(keys: Seq<u16>) -> Seq<SimInput> {
    keys.map_values(|k: u16| key_down(k)) + keys.reverse().map_values(|k: u16| key_up(k))
}

/// Press all keys in order, then release them in reverse order.
pub fn key_combo_inputs(keys: &[u16]) -> (r: Vec<SimInput>)
    ensures
        r@ == combo_records(keys@),
{
    let mut inputs: Vec<SimInput> = Vec::new();
    let n = keys.len();
    let mut i: usize = 0;
    while i < n
        invariant
            n == keys@.len(),
            i <= n,
            inputs@ =~= keys@.subrange(0, i as int).map_values(|k: u16| key_down(k)),
        decreases n - i,
    {
        inputs.push(create_key_input(keys[i], true, false));
        i = i + 1;
        assert(keys@.subrange(0, i as int).map_values(|k: u16| key_down(k)) =~= keys@.subrange(
            0,
            i - 1,
        ).map_values(|k: u16| key_down(k)).push(key_down(keys@[i - 1])));
    }
    assert(keys@.subrange(0, n as int) =~= keys@);
    let ghost pressed = inputs@;
    let mut j: usize = n;
    while j > 0
        invariant
            n == keys@.len(),
            j <= n,
            pressed == keys@.map_values(|k: u16| key_down(k)),
            inputs@ =~= pressed + keys@.reverse().subrange(0, (n - j) as int).map_values(
                |k: u16| key_up(k),
            ),
        decreases j,
    {
        j = j - 1;
        inputs.push(create_key_input(keys[j], false, false));
        let ghost done = (n - j) as int;
        assert(keys@.reverse()[done - 1] == keys@[j as int]);
        assert(keys@.reverse().subrange(0, done).map_values(|k: u16| key_up(k)) =~= keys@.reverse().subrange(
            0,
            done - 1,
        ).map_values(|k: u16| key_up(k)).push(key_up(keys@[j as int])));
    }
    assert(keys@.reverse().subrange(0, n as int) =~= keys@.reverse());
    inputs
}

/// The records of the shortcut that a gesture stands for, if it has one.
pub open spec fn gesture_records(g: GestureType) -> Option<Seq<SimInput>> {
    match gesture_shortcut(g) {
        Some(keys) => Some(combo_records(keys)),
        None => None,
    }
}

/// The records that reproduce a gesture on Windows: its shortcut pressed and
/// released as a combination (swipe left/right: Ctrl+Win+Left/Right, swipe up:
/// Win+Tab, swipe down: Win+D). Zoom has no shortcut.
pub fn gesture_inputs(gesture: GestureType) -> (r: Option<Vec<SimInput>>)
    ensures
        match r {
            Some(v) => gesture_records(gesture) == Some(v@),
            None => gesture_records(gesture) is None,
        },
{
    match gesture_keys(gesture) {
        Some(keys) => Some(key_combo_inputs(keys.as_slice())),
        None => None,
    }
}

/// Every key of a combination is released exactly after all of them are
/// pressed, and the releases mirror the presses.
pub proof fn lemma_combo_releases_mirror_presses(keys: Seq<u16>)
    ensures
        combo_records(keys).len() == 2 * keys.len(),
        forall|i: int|
            0 <= i < keys.len() ==> #[trigger] combo_records(keys)[i] == SimInput::Key(
                KeyInput { vk: keys[i], flags: 0 },
            ) && combo_records(keys)[2 * keys.len() - 1 - i] == SimInput::Key(
                KeyInput { vk: keys[i], flags: 2 },
            ),
{
    lemma_key_flag_values();
    assert forall|i: int| 0 <= i < keys.len() implies #[trigger] combo_records(keys)[i]
        == SimInput::Key(KeyInput { vk: keys[i], flags: 0 }) && combo_records(keys)[2 * keys.len()
        - 1 - i] == SimInput::Key(KeyInput { vk: keys[i], flags: 2 }) by {
        let k = 2 * keys.len() - 1 - i;
        assert(keys.reverse()[k - keys.len()] == keys[i]);
    }
}

/// The records of mouse buttons: left down 0x2 / up 0x4, right down 0x8 / up 0x10,
/// middle down 0x20 / up 0x40, the extra buttons down 0x80 / up 0x100 with mouse
/// data 1 for the fourth and 2 for the fifth button, and 0 for the others.
pub proof fn lemma_mouse_button_records(pressed: bool)
    ensures
        button_flags(MouseButton::Left, pressed) == (if pressed {
            0x2u32
        } else {
            0x4u32
        }),
        button_flags(MouseButton::Right, pressed) == (if pressed {
            0x8u32
        } else {
            0x10u32
        }),
        button_flags(MouseButton::Middle, pressed) == (if pressed {
            0x20u32
        } else {
            0x40u32
        }),
        button_flags(MouseButton::Button4, pressed) == (if pressed {
            0x80u32
        } else {
            0x100u32
        }),
        button_flags(MouseButton::Button5, pressed) == (if pressed {
            0x80u32
        } else {
            0x100u32
        }),
        button_data(MouseButton::Left) == 0,
        button_data(MouseButton::Right) == 0,
        button_data(MouseButton::Middle) == 0,
        button_data(MouseButton::Button4) == 1,
        button_data(MouseButton::Button5) == 2,
{
}

/// The flags of a key record: 0 for a press, 2 for a release, plus 4 for a
/// Unicode character.
pub proof fn lemma_key_flag_values()
    ensures
        key_flags(true, false) == 0,
        key_flags(false, false) == 2,
        key_flags(true, true) == 4,
        key_flags(false, true) == 6,
{
    assert(0u32 | 0u32 == 0u32) by (bit_vector);
    assert(2u32 | 0u32 == 2u32) by (bit_vector);
    assert(0u32 | 4u32 == 4u32) by (bit_vector);
    assert(2u32 | 4u32 == 6u32) by (bit_vector);
}

/// The number of modifier keys held in a macOS modifier state.
pub open spec fn held_count(m: Modifiers) -> int {
    (if m.shift {
        1int
    } else {
        0int
    }) + (if m.control {
        1int
    } else {
        0int
    }) + (if m.alt {
        1int
    } else {
        0int
    }) + (if m.command {
        1int
    } else {
        0int
    })
}

/// The records of a key event, in terms of the event itself: first one key-down
/// record (flags 0) for each held modifier, as its Windows key (Shift 0x10,
/// Command as Ctrl 0x11, Option as Alt 0x12, Control as Win 0x5B), each held
/// modifier present and no other; then the mapped key, down (flags 0) or up
/// (flags 2); and, when the key goes up, each modifier released (flags 2) in the
/// reverse order of its press. A key press has no release records.
pub proof fn lemma_key_event_records(e: KeyboardEvent)
    ensures
        ({
            let r = keyboard_records(e);
            let n = held_count(e.modifiers);
            let mods = r.subrange(0, n);
            &&& r.len() == (if e.pressed {
                n + 1
            } else {
                2 * n + 1
            })
            &&& r[n] == SimInput::Key(
                KeyInput {
                    vk: windows_key(e.key_code),
                    flags: if e.pressed {
                        0u32
                    } else {
                        2u32
                    },
                },
            )
            &&& (forall|i: int|
                0 <= i < n ==> (#[trigger] r[i] == SimInput::Key(KeyInput { vk: 0x10, flags: 0 })
                    || r[i] == SimInput::Key(KeyInput { vk: 0x11, flags: 0 }) || r[i]
                    == SimInput::Key(KeyInput { vk: 0x12, flags: 0 }) || r[i] == SimInput::Key(
                    KeyInput { vk: 0x5B, flags: 0 },
                )))
            &&& (e.modifiers.shift <==> mods.contains(SimInput::Key(KeyInput { vk: 0x10, flags: 0 })))
            &&& (e.modifiers.command <==> mods.contains(
                SimInput::Key(KeyInput { vk: 0x11, flags: 0 }),
            ))
            &&& (e.modifiers.alt <==> mods.contains(SimInput::Key(KeyInput { vk: 0x12, flags: 0 })))
            &&& (e.modifiers.control <==> mods.contains(
                SimInput::Key(KeyInput { vk: 0x5B, flags: 0 }),
            ))
            &&& (!e.pressed ==> forall|i: int|
                0 <= i < n ==> #[trigger] r[2 * n - i] == SimInput::Key(
                    KeyInput { vk: r[i]->Key_0.vk, flags: 2 },
                ))
        }),
{
    let r = keyboard_records(e);
    let n = held_count(e.modifiers);
    let mods = r.subrange(0, n);
    let w = e.modifiers.windows_view();
    lemma_key_flag_values();
    assert(modifier_presses(w).len() == n);
    assert(mods =~= modifier_presses(w));
    let sd = SimInput::Key(KeyInput { vk: 0x10, flags: 0 });
    let cd = SimInput::Key(KeyInput { vk: 0x11, flags: 0 });
    let ad = SimInput::Key(KeyInput { vk: 0x12, flags: 0 });
    let wd = SimInput::Key(KeyInput { vk: 0x5B, flags: 0 });
    if w.ctrl && w.shift && w.alt && w.win {
        assert(mods =~= seq![cd, sd, ad, wd]);
        assert(mods[0] == cd);
        assert(mods[1] == sd);
        assert(mods[2] == ad);
        assert(mods[3] == wd);
    } else if w.ctrl && w.shift && w.alt && !w.win {
        assert(mods =~= seq![cd, sd, ad]);
        assert(mods[0] == cd);
        assert(mods[1] == sd);
        assert(mods[2] == ad);
    } else if w.ctrl && w.shift && !w.alt && w.win {
        assert(mods =~= seq![cd, sd, wd]);
        assert(mods[0] == cd);
        assert(mods[1] == sd);
        assert(mods[2] == wd);
    } else if w.ctrl && w.shift && !w.alt && !w.win {
        assert(mods =~= seq![cd, sd]);
        assert(mods[0] == cd);
        assert(mods[1] == sd);
    } else if w.ctrl && !w.shift && w.alt && w.win {
        assert(mods =~= seq![cd, ad, wd]);
        assert(mods[0] == cd);
        assert(mods[1] == ad);
        assert(mods[2] == wd);
    } else if w.ctrl && !w.shift && w.alt && !w.win {
        assert(mods =~= seq![cd, ad]);
        assert(mods[0] == cd);
        assert(mods[1] == ad);
    } else if w.ctrl && !w.shift && !w.alt && w.win {
        assert(mods =~= seq![cd, wd]);
        assert(mods[0] == cd);
        assert(mods[1] == wd);
    } else if w.ctrl && !w.shift && !w.alt && !w.win {
        assert(mods =~= seq![cd]);
        assert(mods[0] == cd);
    } else if !w.ctrl && w.shift && w.alt && w.win {
        assert(mods =~= seq![sd, ad, wd]);
        assert(mods[0] == sd);
        assert(mods[1] == ad);
        assert(mods[2] == wd);
    } else if !w.ctrl && w.shift && w.alt && !w.win {
        assert(mods =~= seq![sd, ad]);
        assert(mods[0] == sd);
        assert(mods[1] == ad);
    } else if !w.ctrl && w.shift && !w.alt && w.win {
        assert(mods =~= seq![sd, wd]);
        assert(mods[0] == sd);
        assert(mods[1] == wd);
    } else if !w.ctrl && w.shift && !w.alt && !w.win {
        assert(mods =~= seq![sd]);
        assert(mods[0] == sd);
    } else if !w.ctrl && !w.shift && w.alt && w.win {
        assert(mods =~= seq![ad, wd]);
        assert(mods[0] == ad);
        assert(mods[1] == wd);
    } else if !w.ctrl && !w.shift && w.alt && !w.win {
        assert(mods =~= seq![ad]);
        assert(mods[0] == ad);
    } else if !w.ctrl && !w.shift && !w.alt && w.win {
        assert(mods =~= seq![wd]);
        assert(mods[0] == wd);
    } else if !w.ctrl && !w.shift && !w.alt && !w.win {
        assert(mods =~= Seq::<SimInput>::empty());
    }
    if !e.pressed {
        assert(modifier_releases(w).len() == n);
        assert forall|i: int| 0 <= i < n implies #[trigger] r[2 * n - i] == SimInput::Key(
            KeyInput { vk: r[i]->Key_0.vk, flags: 2 },
        ) by {
            assert(r[2 * n - i] == modifier_releases(w)[n - 1 - i]);
        }
    }
}

/// Each letter key of the Mac keyboard goes to the Windows key of the same letter
/// ('A' 0x41 to 'Z' 0x5A).
pub proof fn lemma_letter_keys()
    ensures
        windows_key(0x00) == 0x41,  // A
        windows_key(0x0B) == 0x42,  // B
        windows_key(0x08) == 0x43,  // C
        windows_key(0x02) == 0x44,  // D
        windows_key(0x0E) == 0x45,  // E
        windows_key(0x03) == 0x46,  // F
        windows_key(0x05) == 0x47,  // G
        windows_key(0x04) == 0x48,  // H
        windows_key(0x22) == 0x49,  // I
        windows_key(0x26) == 0x4A,  // J
        windows_key(0x28) == 0x4B,  // K
        windows_key(0x25) == 0x4C,  // L
        windows_key(0x2E) == 0x4D,  // M
        windows_key(0x2D) == 0x4E,  // N
        windows_key(0x1F) == 0x4F,  // O
        windows_key(0x23) == 0x50,  // P
        windows_key(0x0C) == 0x51,  // Q
        windows_key(0x0F) == 0x52,  // R
        windows_key(0x01) == 0x53,  // S
        windows_key(0x11) == 0x54,  // T
        windows_key(0x20) == 0x55,  // U
        windows_key(0x09) == 0x56,  // V
        windows_key(0x0D) == 0x57,  // W
        windows_key(0x07) == 0x58,  // X
        windows_key(0x10) == 0x59,  // Y
        windows_key(0x06) == 0x5A,  // Z
{
}

/// Each digit key of the Mac keyboard goes to the Windows key of the same digit
/// ('0' 0x30 to '9' 0x39).
pub proof fn lemma_digit_keys()
    ensures
        windows_key(0x1D) == 0x30,  // 0
        windows_key(0x12) == 0x31,  // 1
        windows_key(0x13) == 0x32,  // 2
        windows_key(0x14) == 0x33,  // 3
        windows_key(0x15) == 0x34,  // 4
        windows_key(0x17) == 0x35,  // 5
        windows_key(0x16) == 0x36,  // 6
        windows_key(0x1A) == 0x37,  // 7
        windows_key(0x1C) == 0x38,  // 8
        windows_key(0x19) == 0x39,  // 9
{
}

/// Editing, navigation and function keys go to the Windows keys of the same name.
pub proof fn lemma_special_keys()
    ensures
        windows_key(0x24) == 0x0D,  // Return
        windows_key(0x30) == 0x09,  // Tab
        windows_key(0x31) == 0x20,  // Space
        windows_key(0x33) == 0x08,  // Backspace
        windows_key(0x35) == 0x1B,  // Escape
        windows_key(0x75) == 0x2E,  // Forward delete
        windows_key(0x73) == 0x24,  // Home
        windows_key(0x77) == 0x23,  // End
        windows_key(0x74) == 0x21,  // Page up
        windows_key(0x79) == 0x22,  // Page down
        windows_key(0x7B) == 0x25,  // Left
        windows_key(0x7C) == 0x27,  // Right
        windows_key(0x7E) == 0x26,  // Up
        windows_key(0x7D) == 0x28,  // Down
        windows_key(0x7A) == 0x70,  // F1
        windows_key(0x78) == 0x71,  // F2
        windows_key(0x63) == 0x72,  // F3
        windows_key(0x76) == 0x73,  // F4
        windows_key(0x60) == 0x74,  // F5
        windows_key(0x61) == 0x75,  // F6
        windows_key(0x62) == 0x76,  // F7
        windows_key(0x64) == 0x77,  // F8
        windows_key(0x65) == 0x78,  // F9
        windows_key(0x6D) == 0x79,  // F10
        windows_key(0x67) == 0x7A,  // F11
        windows_key(0x6F) == 0x7B,  // F12
{
}

/// The keys of the German Mac layout go to the keys of the German Windows layout
/// that type the same character.
pub proof fn lemma_german_layout_keys()
    ensures
        windows_key(0x27) == 0xDE,  // Ä
        windows_key(0x29) == 0xC0,  // Ö
        windows_key(0x21) == 0xBA,  // Ü
        windows_key(0x1B) == 0xDB,  // ß
        windows_key(0x1E) == 0xBB,  // +
        windows_key(0x2C) == 0xBD,  // -
        windows_key(0x18) == 0xDD,  // ´
        windows_key(0x2B) == 0xBC,  // ,
        windows_key(0x2F) == 0xBE,  // .
{
}

/// Every key code other than the 71 listed in the laws above (letters, digits,
/// editing, navigation and function keys, German layout keys) passes through
/// unchanged.
pub proof fn lemma_unknown_keys_pass_through(k: u16)
    requires
        k != 0x00,
        k != 0x0B,
        k != 0x08,
        k != 0x02,
        k != 0x0E,
        k != 0x03,
        k != 0x05,
        k != 0x04,
        k != 0x22,
        k != 0x26,
        k != 0x28,
        k != 0x25,
        k != 0x2E,
        k != 0x2D,
        k != 0x1F,
        k != 0x23,
        k != 0x0C,
        k != 0x0F,
        k != 0x01,
        k != 0x11,
        k != 0x20,
        k != 0x09,
        k != 0x0D,
        k != 0x07,
        k != 0x10,
        k != 0x06,
        k != 0x1D,
        k != 0x12,
        k != 0x13,
        k != 0x14,
        k != 0x15,
        k != 0x17,
        k != 0x16,
        k != 0x1A,
        k != 0x1C,
        k != 0x19,
        k != 0x24,
        k != 0x30,
        k != 0x31,
        k != 0x33,
        k != 0x35,
        k != 0x75,
        k != 0x73,
        k != 0x77,
        k != 0x74,
        k != 0x79,
        k != 0x7B,
        k != 0x7C,
        k != 0x7E,
        k != 0x7D,
        k != 0x7A,
        k != 0x78,
        k != 0x63,
        k != 0x76,
        k != 0x60,
        k != 0x61,
        k != 0x62,
        k != 0x64,
        k != 0x65,
        k != 0x6D,
        k != 0x67,
        k != 0x6F,
        k != 0x27,
        k != 0x29,
        k != 0x21,
        k != 0x1B,
        k != 0x1E,
        k != 0x2C,
        k != 0x18,
        k != 0x2B,
        k != 0x2F,
    ensures
        windows_key(k) == k,
{
}

/// The shortcuts of the swipe gestures, as records (key down: flags 0, key up:
/// flags 2): left Ctrl+Win+Left, right Ctrl+Win+Right, up Win+Tab, down Win+D, each
/// pressed in that order and released in reverse; zoom, by any factor, has none.
pub proof fn lemma_gesture_shortcuts(zoom: u64)
    ensures
        gesture_records(GestureType::SwipeLeft) == Some(
            seq![
                SimInput::Key(KeyInput { vk: 0xA2, flags: 0 }),
                SimInput::Key(KeyInput { vk: 0x5B, flags: 0 }),
                SimInput::Key(KeyInput { vk: 0x25, flags: 0 }),
                SimInput::Key(KeyInput { vk: 0x25, flags: 2 }),
                SimInput::Key(KeyInput { vk: 0x5B, flags: 2 }),
                SimInput::Key(KeyInput { vk: 0xA2, flags: 2 }),
            ],
        ),
        gesture_records(GestureType::SwipeRight) == Some(
            seq![
                SimInput::Key(KeyInput { vk: 0xA2, flags: 0 }),
                SimInput::Key(KeyInput { vk: 0x5B, flags: 0 }),
                SimInput::Key(KeyInput { vk: 0x27, flags: 0 }),
                SimInput::Key(KeyInput { vk: 0x27, flags: 2 }),
                SimInput::Key(KeyInput { vk: 0x5B, flags: 2 }),
                SimInput::Key(KeyInput { vk: 0xA2, flags: 2 }),
            ],
        ),
        gesture_records(GestureType::SwipeUp) == Some(
            seq![
                SimInput::Key(KeyInput { vk: 0x5B, flags: 0 }),
                SimInput::Key(KeyInput { vk: 0x09, flags: 0 }),
                SimInput::Key(KeyInput { vk: 0x09, flags: 2 }),
                SimInput::Key(KeyInput { vk: 0x5B, flags: 2 }),
            ],
        ),
        gesture_records(GestureType::SwipeDown) == Some(
            seq![
                SimInput::Key(KeyInput { vk: 0x5B, flags: 0 }),
                SimInput::Key(KeyInput { vk: 0x44, flags: 0 }),
                SimInput::Key(KeyInput { vk: 0x44, flags: 2 }),
                SimInput::Key(KeyInput { vk: 0x5B, flags: 2 }),
            ],
        ),
        gesture_records(GestureType::ZoomIn(zoom)) is None,
        gesture_records(GestureType::ZoomOut(zoom)) is None,
{
    lemma_key_flag_values();
    assert(gesture_records(GestureType::SwipeLeft)->0 =~= seq![
        SimInput::Key(KeyInput { vk: 0xA2, flags: 0 }),
        SimInput::Key(KeyInput { vk: 0x5B, flags: 0 }),
        SimInput::Key(KeyInput { vk: 0x25, flags: 0 }),
        SimInput::Key(KeyInput { vk: 0x25, flags: 2 }),
        SimInput::Key(KeyInput { vk: 0x5B, flags: 2 }),
        SimInput::Key(KeyInput { vk: 0xA2, flags: 2 }),
    ]);
    assert(gesture_records(GestureType::SwipeRight)->0 =~= seq![
        SimInput::Key(KeyInput { vk: 0xA2, flags: 0 }),
        SimInput::Key(KeyInput { vk: 0x5B, flags: 0 }),
        SimInput::Key(KeyInput { vk: 0x27, flags: 0 }),
        SimInput::Key(KeyInput { vk: 0x27, flags: 2 }),
        SimInput::Key(KeyInput { vk: 0x5B, flags: 2 }),
        SimInput::Key(KeyInput { vk: 0xA2, flags: 2 }),
    ]);
    assert(gesture_records(GestureType::SwipeUp)->0 =~= seq![
        SimInput::Key(KeyInput { vk: 0x5B, flags: 0 }),
        SimInput::Key(KeyInput { vk: 0x09, flags: 0 }),
        SimInput::Key(KeyInput { vk: 0x09, flags: 2 }),
        SimInput::Key(KeyInput { vk: 0x5B, flags: 2 }),
    ]);
    assert(gesture_records(GestureType::SwipeDown)->0 =~= seq![
        SimInput::Key(KeyInput { vk: 0x5B, flags: 0 }),
        SimInput::Key(KeyInput { vk: 0x44, flags: 0 }),
        SimInput::Key(KeyInput { vk: 0x44, flags: 2 }),
        SimInput::Key(KeyInput { vk: 0x5B, flags: 2 }),
    ]);
}

} // verus!
