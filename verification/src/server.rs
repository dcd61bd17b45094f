//! The server's answer to each message it receives.
use vstd::prelude::*;
use crate::client::{converted, gesture_message, tap_decision, TapDecision, TapEvent};
use crate::protocol::{GestureEvent, GestureType, InputEvent, Message};
use crate::state::AppState;

verus! {

/// What the server does with one message.
#[derive(Clone, Copy, Debug, PartialEq, Eq, Structural)]
pub enum ServerAction {
    /// Send this message back to the client.
    Reply(Message),
    /// Do nothing.
    Ignore,
    /// Reproduce this input on the local machine.
    Simulate(InputEvent),
}

/// The server's answer to `m`: a Ping is answered by a Pong with the same
/// sequence number, a Pong is ignored, any other event is reproduced.
pub open spec fn server_action(m: Message) -> ServerAction {
    match m.event {
        InputEvent::Ping => ServerAction::Reply(Message { sequence: m.sequence, event: InputEvent::Pong }),
        InputEvent::Pong => ServerAction::Ignore,
        event => ServerAction::Simulate(event),
    }
}

/// Decide what to do with a received message.
pub fn handle_message(message: Message) -> (a: ServerAction)
    ensures
        a == server_action(message),
{
    match message.event {
        InputEvent::Ping => ServerAction::Reply(Message::new(message.sequence, InputEvent::Pong)),
        InputEvent::Pong => ServerAction::Ignore,
        event => ServerAction::Simulate(event),
    }
}

/// A reply, when there is one, is a Pong that carries the sequence number of the
/// message it answers, and only a Ping is answered.
pub proof fn lemma_reply_is_pong(m: Message)
    ensures
        server_action(m) is Reply <==> m.event == InputEvent::Ping,
        server_action(m) matches ServerAction::Reply(r) ==> r.sequence == m.sequence && r.event
            == InputEvent::Pong,
{
}

/// The server never reproduces a Ping or a Pong, and reproduces every other event
/// exactly as it came.
pub proof fn lemma_simulated_events(m: Message)
    ensures
        server_action(m) matches ServerAction::Simulate(e) ==> e == m.event && e != InputEvent::Ping
            && e != InputEvent::Pong,
        (m.event != InputEvent::Ping && m.event != InputEvent::Pong) ==> server_action(m)
            == ServerAction::Simulate(m.event),
{
}

/// Whatever the client forwards, the server reproduces exactly: a captured event
/// never becomes a Ping or a Pong.
pub proof fn lemma_forwarded_input_is_reproduced<C>(s: AppState<C>, e: TapEvent)
    ensures
        converted(e) matches Some(ev) ==> ev != InputEvent::Ping && ev != InputEvent::Pong,
        tap_decision(s, e) matches TapDecision::Forward(m) ==> server_action(m)
            == ServerAction::Simulate(m.event) && Some(m.event) == converted(e),
{
}

/// A forwarded gesture is reproduced as the same gesture.
pub proof fn lemma_forwarded_gesture_is_reproduced<C>(s: AppState<C>, g: GestureType)
    ensures
        gesture_message(s, g) matches Some(m) ==> server_action(m) == ServerAction::Simulate(
            InputEvent::Gesture(GestureEvent { gesture_type: g }),
        ),
{
}

} // verus!
