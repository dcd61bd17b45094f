use samesame::protocol::{
    InputEvent, KeyboardEvent, Message, Modifiers, MouseButton, MouseButtonEvent,
};
use samesame::server::{handle_message, ServerAction};
use samesame::client::{handle_event, EventType, TapDecision, TapEvent};
use samesame::protocol::MouseMoveEvent;
use samesame::state::{AppState, InputMode};

#[test]
fn ping_is_answered_with_pong_of_same_sequence() {
    let a = handle_message(Message::new(7, InputEvent::Ping));
    assert_eq!(a, ServerAction::Reply(Message::new(7, InputEvent::Pong)));
}

#[test]
fn ping_at_largest_sequence_keeps_it() {
    let a = handle_message(Message::new(u64::MAX, InputEvent::Ping));
    assert_eq!(a, ServerAction::Reply(Message::new(u64::MAX, InputEvent::Pong)));
}

#[test]
fn pong_is_ignored() {
    assert_eq!(handle_message(Message::new(3, InputEvent::Pong)), ServerAction::Ignore);
}

#[test]
fn input_events_are_reproduced_unchanged() {
    let key = InputEvent::Keyboard(KeyboardEvent {
        key_code: 0x00,
        character: Some('a'),
        pressed: true,
        modifiers: Modifiers { shift: false, control: false, alt: false, command: false },
    });
    assert_eq!(handle_message(Message::new(1, key)), ServerAction::Simulate(key));
    let click = InputEvent::MouseButton(MouseButtonEvent { button: MouseButton::Left, pressed: false });
    assert_eq!(handle_message(Message::new(2, click)), ServerAction::Simulate(click));
}

#[test]
fn what_the_client_forwards_the_server_reproduces() {
    let mut s: AppState<u8> = AppState::new();
    s.mode = InputMode::Windows;
    s.network_client = Some(0);
    let e = TapEvent {
        event_type: EventType::OtherMouseDown,
        keycode: 0,
        flags: 0,
        character: None,
        pointer: MouseMoveEvent { x: 0, y: 0, delta_x: 0, delta_y: 0 },
        button_number: 3,
        scroll_delta_x: 0,
        scroll_delta_y: 0,
        scroll_continuous: 0,
    };
    match handle_event(&mut s, &e) {
        TapDecision::Forward(m) => {
            assert_eq!(
                handle_message(m),
                ServerAction::Simulate(InputEvent::MouseButton(MouseButtonEvent {
                    button: MouseButton::Button4,
                    pressed: true,
                }))
            );
        }
        d => panic!("expected a forward, got {:?}", d),
    }
}
