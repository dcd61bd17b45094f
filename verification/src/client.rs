//! The client's decisions on captured input: which event is the mode hotkey,
//! how an event is turned into a protocol event, and whether it is passed to
//! macOS, swallowed, or forwarded to the server.
use vstd::prelude::*;
use crate::protocol::{
    GestureEvent, GestureType, InputEvent, KeyboardEvent, Message, Modifiers, MouseButton,
    MouseButtonEvent, MouseMoveEvent, MouseScrollEvent,
};
use crate::state::{AppState, InputMode};

verus! {

/// Shift flag of a Quartz event.
pub const FLAG_SHIFT: u64 = 0x0002_0000;
/// Control flag of a Quartz event.
pub const FLAG_CONTROL: u64 = 0x0004_0000;
/// Option (Alternate) flag of a Quartz event.
pub const FLAG_ALTERNATE: u64 = 0x0008_0000;
/// Command flag of a Quartz event.
pub const FLAG_COMMAND: u64 = 0x0010_0000;
/// macOS key code of the '1' key.
pub const KEYCODE_ONE: i64 = 18;

/// The kinds of Quartz events that the event tap asks for; anything else is `Other`.
#[derive(Clone, Copy, Debug, PartialEq, Eq, Structural)]
pub enum EventType {
    KeyDown,
    KeyUp,
    FlagsChanged,
    LeftMouseDown,
    LeftMouseUp,
    RightMouseDown,
    RightMouseUp,
    MouseMoved,
    LeftMouseDragged,
    RightMouseDragged,
    ScrollWheel,
    OtherMouseDown,
    OtherMouseUp,
    OtherMouseDragged,
    Other,
}

/// What the client reads off one captured event.
///
/// `pointer` holds the pointer position already divided by the screen size and
/// the integer deltas converted to binary64; `scroll_delta_x` and
/// `scroll_delta_y` hold the wheel axes 2 and 1 converted to binary64; all as
/// bit patterns.
#[derive(Clone, Copy, Debug, PartialEq, Eq, Structural)]
pub struct TapEvent {
    pub event_type: EventType,
    /// Keyboard key code field
    pub keycode: i64,
    /// Modifier flags
    pub flags: u64,
    /// First character of the event's text, if it has one
    pub character: Option<char>,
    pub pointer: MouseMoveEvent,
    /// Mouse button number field
    pub button_number: i64,
    pub scroll_delta_x: u64,
    pub scroll_delta_y: u64,
    /// Scroll "is continuous" field
    pub scroll_continuous: i64,
}

/// The flag (a single bit) is set in `flags`.
pub open spec fn has_flag(flags: u64, flag: u64) -> bool {
    flags & flag == flag
}

/// The modifiers that a set of event flags holds.
pub open spec fn modifiers_of(flags: u64) -> Modifiers {
    Modifiers {
        shift: has_flag(flags, FLAG_SHIFT),
        control: has_flag(flags, FLAG_CONTROL),
        alt: has_flag(flags, FLAG_ALTERNATE),
        command: has_flag(flags, FLAG_COMMAND),
    }
}

/// Option+1 pressed: the hotkey that switches between the two modes.
pub open spec fn is_hotkey(e: TapEvent) -> bool {
    e.event_type == EventType::KeyDown && e.keycode == KEYCODE_ONE && has_flag(
        e.flags,
        FLAG_ALTERNATE,
    )
}

/// The protocol event that a captured event stands for, if any.
pub open spec fn converted(e: TapEvent) -> Option<InputEvent> {
    match e.event_type {
        EventType::KeyDown | EventType::KeyUp => {
            let pressed = e.event_type == EventType::KeyDown;
            Some(
                InputEvent::Keyboard(
                    KeyboardEvent {
                        key_code: e.keycode as u16,
                        character: if pressed {
                            e.character
                        } else {
                            None
                        },
                        pressed,
                        modifiers: modifiers_of(e.flags),
                    },
                ),
            )
        },
        EventType::MouseMoved | EventType::LeftMouseDragged | EventType::RightMouseDragged => Some(
            InputEvent::MouseMove(e.pointer),
        ),
        EventType::LeftMouseDown | EventType::LeftMouseUp => Some(
            InputEvent::MouseButton(
                MouseButtonEvent {
                    button: MouseButton::Left,
                    pressed: e.event_type == EventType::LeftMouseDown,
                },
            ),
        ),
        EventType::RightMouseDown | EventType::RightMouseUp => Some(
            InputEvent::MouseButton(
                MouseButtonEvent {
                    button: MouseButton::Right,
                    pressed: e.event_type == EventType::RightMouseDown,
                },
            ),
        ),
        EventType::OtherMouseDown | EventType::OtherMouseUp => {
            let pressed = e.event_type == EventType::OtherMouseDown;
            if e.button_number == 2 {
                Some(InputEvent::MouseButton(MouseButtonEvent { button: MouseButton::Middle, pressed }))
            } else if e.button_number == 3 {
                Some(InputEvent::MouseButton(MouseButtonEvent { button: MouseButton::Button4, pressed }))
            } else if e.button_number == 4 {
                Some(InputEvent::MouseButton(MouseButtonEvent { button: MouseButton::Button5, pressed }))
            } else {
                None
            }
        },
        EventType::ScrollWheel => Some(
            InputEvent::MouseScroll(
                MouseScrollEvent {
                    delta_x: e.scroll_delta_x,
                    delta_y: e.scroll_delta_y,
                    is_pixel_based: e.scroll_continuous != 0,
                },
            ),
        ),
        _ => None,
    }
}

/// What becomes of one captured event.
#[derive(Clone, Copy, Debug, PartialEq, Eq, Structural)]
pub enum TapDecision {
    /// Hand the event on to macOS.
    Pass,
    /// Swallow the event.
    Block,
    /// Swallow the event and send this message to the server.
    Forward(Message),
}

/// The decision on event `e` in state `s`.
pub open spec fn tap_decision<C>(s: AppState<C>, e: TapEvent) -> TapDecision {
    if is_hotkey(e) {
        TapDecision::Pass
    } else if s.mode == InputMode::MacOS {
        TapDecision::Pass
    } else if s.network_client is None {
        TapDecision::Block
    } else {
        match converted(e) {
            Some(ev) => TapDecision::Forward(Message { sequence: (s.sequence + 1) as u64, event: ev }),
            None => TapDecision::Block,
        }
    }
}

/// The event makes the client send a message.
pub open spec fn tap_forwards<C>(s: AppState<C>, e: TapEvent) -> bool {
    tap_decision(s, e) is Forward
}

/// The state after event `e` in state `s`: the hotkey switches the mode, a
/// forwarded event uses up one sequence number, nothing else changes.
pub open spec fn tap_next<C>(s: AppState<C>, e: TapEvent) -> AppState<C> {
    if is_hotkey(e) {
        AppState {
            mode: s.mode.toggled(),
            network_client: s.network_client,
            server_address: s.server_address,
            sequence: s.sequence,
        }
    } else if tap_forwards(s, e) {
        AppState {
            mode: s.mode,
            network_client: s.network_client,
            server_address: s.server_address,
            sequence: (s.sequence + 1) as u64,
        }
    } else {
        s
    }
}

/// Check if the event is the toggle hotkey (Option+1)
pub fn is_toggle_hotkey(event: &TapEvent) -> (b: bool)
    ensures
        b == is_hotkey(*event),
{
    event.event_type == EventType::KeyDown && event.keycode == KEYCODE_ONE && event.flags
        & FLAG_ALTERNATE == FLAG_ALTERNATE
}

/// Extract modifier keys from event flags
pub fn extract_modifiers(flags: u64) -> (m: Modifiers)
    ensures
        m == modifiers_of(flags),
{
    Modifiers {
        shift: flags & FLAG_SHIFT == FLAG_SHIFT,
        control: flags & FLAG_CONTROL == FLAG_CONTROL,
        alt: flags & FLAG_ALTERNATE == FLAG_ALTERNATE,
        command: flags & FLAG_COMMAND == FLAG_COMMAND,
    }
}

/// Convert a captured event to our InputEvent
pub fn convert_cg_event_to_input_event(event: &TapEvent) -> (r: Option<InputEvent>)
    ensures
        r == converted(*event),
{
    match event.event_type {
        EventType::KeyDown | EventType::KeyUp => {
            let pressed = event.event_type == EventType::KeyDown;
            let character = if pressed {
                event.character
            } else {
                None
            };
            Some(
                InputEvent::Keyboard(
                    KeyboardEvent {
                        key_code: event.keycode as u16,
                        character,
                        pressed,
                        modifiers: extract_modifiers(event.flags),
                    },
                ),
            )
        },
        EventType::MouseMoved | EventType::LeftMouseDragged | EventType::RightMouseDragged => Some(
            InputEvent::MouseMove(event.pointer),
        ),
        EventType::LeftMouseDown | EventType::LeftMouseUp => Some(
            InputEvent::MouseButton(
                MouseButtonEvent {
                    button: MouseButton::Left,
                    pressed: event.event_type == EventType::LeftMouseDown,
                },
            ),
        ),
        EventType::RightMouseDown | EventType::RightMouseUp => Some(
            InputEvent::MouseButton(
                MouseButtonEvent {
                    button: MouseButton::Right,
                    pressed: event.event_type == EventType::RightMouseDown,
                },
            ),
        ),
        EventType::OtherMouseDown | EventType::OtherMouseUp => {
            let pressed = event.event_type == EventType::OtherMouseDown;
            let button = if event.button_number == 2 {
                MouseButton::Middle
            } else if event.button_number == 3 {
                MouseButton::Button4
            } else if event.button_number == 4 {
                MouseButton::Button5
            } else {
                return None;
            };
            Some(InputEvent::MouseButton(MouseButtonEvent { button, pressed }))
        },
        EventType::ScrollWheel => Some(
            InputEvent::MouseScroll(
                MouseScrollEvent {
                    delta_x: event.scroll_delta_x,
                    delta_y: event.scroll_delta_y,
                    is_pixel_based: event.scroll_continuous != 0,
                },
            ),
        ),
        _ => None,
    }
}

/// Handle a single captured event: switch modes on the hotkey, and decide
/// whether the event goes to macOS, is swallowed, or is forwarded. In Windows
/// mode every event but the hotkey is kept from macOS.
pub fn handle_event<C>(state: &mut AppState<C>, event: &TapEvent) -> (d: TapDecision)
    requires
        tap_forwards(*old(state), *event) ==> old(state).sequence < u64::MAX,
    ensures
        d == tap_decision(*old(state), *event),
        *final(state) == tap_next(*old(state), *event),
{
    // Option+1 switches modes and is never swallowed
    if is_toggle_hotkey(event) {
        state.mode = state.mode.toggle();
        return TapDecision::Pass;
    }
    // In macOS mode every event goes to macOS
    if state.mode == InputMode::MacOS {
        return TapDecision::Pass;
    }
    // In Windows mode without a connection, input is swallowed
    if state.network_client.is_none() {
        return TapDecision::Block;
    }
    match convert_cg_event_to_input_event(event) {
        Some(input_event) => {
            let sequence = state.next_sequence();
            TapDecision::Forward(Message::new(sequence, input_event))
        },
        // In Windows mode input that has no protocol event is swallowed too
        None => TapDecision::Block,
    }
}

/// The message that a gesture becomes in state `s`, if any.
pub open spec fn gesture_message<C>(s: AppState<C>, gesture: GestureType) -> Option<Message> {
    if s.forwarding() {
        Some(
            Message {
                sequence: (s.sequence + 1) as u64,
                event: InputEvent::Gesture(GestureEvent { gesture_type: gesture }),
            },
        )
    } else {
        None
    }
}

/// The state after gesture `gesture` in state `s`: a sent gesture uses up one
/// sequence number, nothing else changes.
pub open spec fn gesture_next<C>(s: AppState<C>, gesture: GestureType) -> AppState<C> {
    if s.forwarding() {
        AppState {
            mode: s.mode,
            network_client: s.network_client,
            server_address: s.server_address,
            sequence: (s.sequence + 1) as u64,
        }
    } else {
        s
    }
}

/// Process a gesture: while forwarding, it becomes the next message to send.
pub fn process_gesture<C>(state: &mut AppState<C>, gesture: GestureType) -> (r: Option<Message>)
    requires
        old(state).forwarding() ==> old(state).sequence < u64::MAX,
    ensures
        r == gesture_message(*old(state), gesture),
        *final(state) == gesture_next(*old(state), gesture),
{
    if !state.should_forward() {
        return None;
    }
    let sequence = state.next_sequence();
    Some(Message::new(sequence, InputEvent::Gesture(GestureEvent { gesture_type: gesture })))
}

/// The Option+1 hotkey is always handed on to macOS, switches the mode and uses
/// up no sequence number.
pub proof fn lemma_hotkey_switches_mode<C>(s: AppState<C>, e: TapEvent)
    requires
        is_hotkey(e),
    ensures
        tap_decision(s, e) == TapDecision::Pass,
        tap_next(s, e).mode == s.mode.toggled(),
        tap_next(s, e).sequence == s.sequence,
        tap_next(s, e).network_client == s.network_client,
{
}

/// Pressing the hotkey twice restores the state.
pub proof fn lemma_hotkey_twice_restores<C>(s: AppState<C>, e1: TapEvent, e2: TapEvent)
    requires
        is_hotkey(e1),
        is_hotkey(e2),
    ensures
        tap_next(tap_next(s, e1), e2) == s,
{
}

/// In macOS mode every event but the hotkey goes to macOS and changes nothing.
pub proof fn lemma_macos_mode_passes_input<C>(s: AppState<C>, e: TapEvent)
    requires
        s.mode == InputMode::MacOS,
        !is_hotkey(e),
    ensures
        tap_decision(s, e) == TapDecision::Pass,
        tap_next(s, e) == s,
{
}

/// In Windows mode no input but the hotkey reaches macOS: without a connection,
/// or when it stands for no protocol event, it is swallowed and changes nothing;
/// otherwise it is forwarded unchanged, under the next sequence number.
pub proof fn lemma_windows_mode_captures_input<C>(s: AppState<C>, e: TapEvent)
    requires
        s.mode == InputMode::Windows,
        !is_hotkey(e),
    ensures
        tap_decision(s, e) != TapDecision::Pass,
        (s.network_client is None || converted(e) is None) ==> tap_decision(s, e)
            == TapDecision::Block && tap_next(s, e) == s,
        (s.network_client is Some && converted(e) is Some) ==> tap_decision(s, e)
            == TapDecision::Forward(
            Message { sequence: (s.sequence + 1) as u64, event: converted(e)->0 },
        ),
{
}

/// Without a connection nothing is ever sent.
pub proof fn lemma_nothing_sent_unconnected<C>(s: AppState<C>, e: TapEvent)
    requires
        s.network_client is None,
    ensures
        !tap_forwards(s, e),
        tap_next(s, e).sequence == s.sequence,
{
}

/// Two messages forwarded one after the other carry consecutive sequence numbers.
pub proof fn lemma_consecutive_sequence_numbers<C>(s: AppState<C>, e1: TapEvent, e2: TapEvent)
    requires
        tap_forwards(s, e1),
        tap_forwards(tap_next(s, e1), e2),
        s.sequence < u64::MAX,
        tap_next(s, e1).sequence < u64::MAX,
    ensures
        tap_decision(tap_next(s, e1), e2)->0.sequence == tap_decision(s, e1)->0.sequence + 1,
{
}

/// One input that the client handles: a captured event or a gesture.
#[derive(Clone, Copy, Debug, PartialEq, Eq, Structural)]
pub enum Step {
    Tap(TapEvent),
    Gesture(GestureType),
}

/// The message that one step sends, if any.
pub open spec fn step_message<C>(s: AppState<C>, step: Step) -> Option<Message> {
    match step {
        Step::Tap(e) => match tap_decision(s, e) {
            TapDecision::Forward(m) => Some(m),
            _ => None,
        },
        Step::Gesture(g) => gesture_message(s, g),
    }
}

/// The state after one step.
pub open spec fn step_next<C>(s: AppState<C>, step: Step) -> AppState<C> {
    match step {
        Step::Tap(e) => tap_next(s, e),
        Step::Gesture(g) => gesture_next(s, g),
    }
}

/// The state after a run of steps.
pub open spec fn run_state<C>(s: AppState<C>, steps: Seq<Step>) -> AppState<C>
    decreases steps.len(),
{
    if steps.len() == 0 {
        s
    } else {
        step_next(run_state(s, steps.drop_last()), steps.last())
    }
}

/// The messages that a run of steps sends, in the order it sends them.
pub open spec fn run_messages<C>(s: AppState<C>, steps: Seq<Step>) -> Seq<Message>
    decreases steps.len(),
{
    if steps.len() == 0 {
        seq![]
    } else {
        let sent = run_messages(s, steps.drop_last());
        match step_message(run_state(s, steps.drop_last()), steps.last()) {
            Some(m) => sent.push(m),
            None => sent,
        }
    }
}

/// No step of the run sends a message while the counter is at its largest value
/// (the condition under which `handle_event` and `process_gesture` may be called).
pub open spec fn run_stays_in_range<C>(s: AppState<C>, steps: Seq<Step>) -> bool {
    forall|k: int|
        0 <= k < steps.len() && #[trigger] step_message(run_state(s, steps.take(k)), steps[k]) is Some
            ==> run_state(s, steps.take(k)).sequence < u64::MAX
}

/// A step that sends uses the next sequence number; one that does not leaves the
/// counter alone.
pub proof fn lemma_step_sequence<C>(s: AppState<C>, step: Step)
    requires
        step_message(s, step) is Some ==> s.sequence < u64::MAX,
    ensures
        step_message(s, step) matches Some(m) ==> m.sequence == s.sequence + 1
            && step_next(s, step).sequence == s.sequence + 1,
        step_message(s, step) is None ==> step_next(s, step).sequence == s.sequence,
{
}

/// Over any run of captured events and gestures, the messages sent carry strictly
/// increasing sequence numbers, all above the counter at the start; the last one
/// is the counter at the end.
pub proof fn lemma_run_sequences_increase<C>(s: AppState<C>, steps: Seq<Step>)
    requires
        run_stays_in_range(s, steps),
    ensures
        forall|i: int, j: int|
            0 <= i < j < run_messages(s, steps).len() ==> #[trigger] run_messages(s, steps)[i].sequence
                < #[trigger] run_messages(s, steps)[j].sequence,
        forall|i: int|
            0 <= i < run_messages(s, steps).len() ==> s.sequence < #[trigger] run_messages(
                s,
                steps,
            )[i].sequence <= run_state(s, steps).sequence,
        run_messages(s, steps).len() > 0 ==> run_messages(s, steps).last().sequence == run_state(
            s,
            steps,
        ).sequence,
        s.sequence <= run_state(s, steps).sequence,
    decreases steps.len(),
{
    if steps.len() > 0 {
        let prefix = steps.drop_last();
        let n = steps.len() - 1;
        assert forall|k: int|
            0 <= k < prefix.len() && #[trigger] step_message(run_state(s, prefix.take(k)), prefix[k])
                is Some implies run_state(s, prefix.take(k)).sequence < u64::MAX by {
            assert(prefix.take(k) =~= steps.take(k));
            assert(prefix[k] == steps[k]);
        }
        lemma_run_sequences_increase(s, prefix);
        assert(steps.take(n) =~= prefix);
        let prev = run_state(s, prefix);
        if step_message(prev, steps[n]) is Some {
            assert(prev.sequence < u64::MAX);
        }
        lemma_step_sequence(prev, steps.last());
    }
}

/// The modifiers read off event flags are the Shift (0x20000), Control (0x40000),
/// Option (0x80000) and Command (0x100000) bits.
pub proof fn lemma_modifier_bits(flags: u64)
    ensures
        modifiers_of(flags).shift <==> flags & 0x20000 != 0,
        modifiers_of(flags).control <==> flags & 0x40000 != 0,
        modifiers_of(flags).alt <==> flags & 0x80000 != 0,
        modifiers_of(flags).command <==> flags & 0x100000 != 0,
{
    assert((flags & 0x20000u64 == 0x20000u64) <==> (flags & 0x20000u64 != 0u64)) by (bit_vector);
    assert((flags & 0x40000u64 == 0x40000u64) <==> (flags & 0x40000u64 != 0u64)) by (bit_vector);
    assert((flags & 0x80000u64 == 0x80000u64) <==> (flags & 0x80000u64 != 0u64)) by (bit_vector);
    assert((flags & 0x100000u64 == 0x100000u64) <==> (flags & 0x100000u64 != 0u64))
        by (bit_vector);
}

/// The mode hotkey is the '1' key (key code 18) going down while the Option bit
/// (0x80000) is set; the other flags do not matter.
pub proof fn lemma_hotkey_bits(e: TapEvent)
    ensures
        is_hotkey(e) <==> (e.event_type == EventType::KeyDown && e.keycode == 18 && e.flags & 0x80000
            != 0),
{
    lemma_modifier_bits(e.flags);
}

/// A key going down or up becomes a keyboard event with the low 16 bits of its key
/// code, pressed exactly when it goes down, with its character only when it goes
/// down, and, whether it goes down or up, with the modifiers whose bits its flags
/// hold.
pub proof fn lemma_key_conversion(e: TapEvent)
    requires
        e.event_type == EventType::KeyDown || e.event_type == EventType::KeyUp,
    ensures
        converted(e) matches Some(InputEvent::Keyboard(k)) && {
            &&& k.key_code == e.keycode as u16
            &&& (k.pressed <==> e.event_type == EventType::KeyDown)
            &&& k.character == (if e.event_type == EventType::KeyDown {
                e.character
            } else {
                None
            })
            &&& (k.modifiers.shift <==> e.flags & 0x20000 != 0)
            &&& (k.modifiers.control <==> e.flags & 0x40000 != 0)
            &&& (k.modifiers.alt <==> e.flags & 0x80000 != 0)
            &&& (k.modifiers.command <==> e.flags & 0x100000 != 0)
        },
{
    lemma_modifier_bits(e.flags);
}

/// A key going down and the same key going up carry the same modifiers, so what
/// the server presses for the one it releases for the other.
pub proof fn lemma_key_up_keeps_modifiers(down: TapEvent, up: TapEvent)
    requires
        down.event_type == EventType::KeyDown,
        up.event_type == EventType::KeyUp,
        down.flags == up.flags,
    ensures
        converted(down) matches Some(InputEvent::Keyboard(kd)) && converted(up) matches Some(
            InputEvent::Keyboard(ku),
        ) && kd.modifiers == ku.modifiers,
{
}

/// Pointer, button and wheel events, in terms of the captured fields: moves and
/// drags carry the pointer sample; left and right buttons are pressed exactly on
/// their down event; the other button numbers 2, 3, 4 are middle, fourth and
/// fifth; a wheel event keeps its deltas and is pixel based exactly when its
/// continuous field is non-zero; everything else converts to nothing.
pub proof fn lemma_pointer_conversion(e: TapEvent)
    ensures
        (e.event_type == EventType::MouseMoved || e.event_type == EventType::LeftMouseDragged
            || e.event_type == EventType::RightMouseDragged) ==> converted(e) == Some(
            InputEvent::MouseMove(e.pointer),
        ),
        e.event_type == EventType::LeftMouseDown ==> converted(e) == Some(
            InputEvent::MouseButton(MouseButtonEvent { button: MouseButton::Left, pressed: true }),
        ),
        e.event_type == EventType::LeftMouseUp ==> converted(e) == Some(
            InputEvent::MouseButton(MouseButtonEvent { button: MouseButton::Left, pressed: false }),
        ),
        e.event_type == EventType::RightMouseDown ==> converted(e) == Some(
            InputEvent::MouseButton(MouseButtonEvent { button: MouseButton::Right, pressed: true }),
        ),
        e.event_type == EventType::RightMouseUp ==> converted(e) == Some(
            InputEvent::MouseButton(MouseButtonEvent { button: MouseButton::Right, pressed: false }),
        ),
        (e.event_type == EventType::OtherMouseDown || e.event_type == EventType::OtherMouseUp)
            ==> converted(e) == (if e.button_number == 2 {
            Some(
                InputEvent::MouseButton(
                    MouseButtonEvent {
                        button: MouseButton::Middle,
                        pressed: e.event_type == EventType::OtherMouseDown,
                    },
                ),
            )
        } else if e.button_number == 3 {
            Some(
                InputEvent::MouseButton(
                    MouseButtonEvent {
                        button: MouseButton::Button4,
                        pressed: e.event_type == EventType::OtherMouseDown,
                    },
                ),
            )
        } else if e.button_number == 4 {
            Some(
                InputEvent::MouseButton(
                    MouseButtonEvent {
                        button: MouseButton::Button5,
                        pressed: e.event_type == EventType::OtherMouseDown,
                    },
                ),
            )
        } else {
            None
        }),
        e.event_type == EventType::ScrollWheel ==> converted(e) == Some(
            InputEvent::MouseScroll(
                MouseScrollEvent {
                    delta_x: e.scroll_delta_x,
                    delta_y: e.scroll_delta_y,
                    is_pixel_based: e.scroll_continuous != 0,
                },
            ),
        ),
        (e.event_type == EventType::FlagsChanged || e.event_type == EventType::OtherMouseDragged
            || e.event_type == EventType::Other) ==> converted(e) is None,
{
}

/// A gesture is sent exactly in Windows mode with a connection: then it becomes
/// the gesture event under the next sequence number, which it uses up; otherwise
/// nothing is sent and the state stays as it was.
pub proof fn lemma_gesture_only_while_forwarding<C>(s: AppState<C>, g: GestureType)
    ensures
        (gesture_message(s, g) is Some) <==> (s.mode == InputMode::Windows && s.network_client is Some),
        gesture_message(s, g) matches Some(m) ==> m.event == InputEvent::Gesture(
            GestureEvent { gesture_type: g },
        ) && gesture_next(s, g).mode == s.mode,
        s.sequence < u64::MAX ==> (gesture_message(s, g) matches Some(m) ==> m.sequence
            == s.sequence + 1 && gesture_next(s, g).sequence == s.sequence + 1),
        gesture_message(s, g) is None ==> gesture_next(s, g) == s,
{
}

} // verus!
