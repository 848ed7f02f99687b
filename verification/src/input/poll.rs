//! One round of waiting for terminal input: the event read, if any, turned
//! into an action.

use vstd::prelude::*;
use crate::hit_test::HitTestContext;
use crate::input::action::AppAction;
use crate::input::keyboard::{key_action, map_key};
use crate::input::keys::KeyEvent;
use crate::input::mouse::{map_mouse, mouse_action, MouseContext, MouseEvent};
use crate::input::state::InputState;

verus! {

/// How long one round waits for an event, in milliseconds.
pub const DEFAULT_INPUT_TIMEOUT_MS: u64 = 100;

/// A terminal event, as the input mapping sees it.
#[derive(Debug, Clone, Copy, PartialEq, Eq, Structural)]
pub enum InputEvent {
    Key(KeyEvent),
    Mouse(MouseEvent),
    /// Resizes, focus changes, pastes.
    Other,
}

/// The outcome of one round of waiting for input.
#[derive(Debug, Clone, Copy, PartialEq, Eq, Structural)]
pub struct InputPoll {
    pub action: Option<AppAction>,
    /// Whether an event arrived before the timeout.
    pub event_received: bool,
}

/// The action of an event: keys and mouse events are mapped, other events
/// give none.
pub open spec fn event_action(
    event: InputEvent,
    st: InputState,
    hit_ctx: HitTestContext,
    mouse_ctx: MouseContext,
) -> Option<AppAction> {
    match event {
        InputEvent::Key(k) => key_action(k, st),
        InputEvent::Mouse(m) => mouse_action(m, hit_ctx, mouse_ctx),
        InputEvent::Other => None,
    }
}

/// The action of the event read in one round (`None` when the wait timed
/// out).
pub fn handle_input(
    event: Option<InputEvent>,
    st: &InputState,
    hit_ctx: &HitTestContext,
    mouse_ctx: &MouseContext,
) -> (res: Option<AppAction>)
    requires
        mouse_ctx.wf(),
    ensures
        res == match event {
            Some(e) => event_action(e, *st, *hit_ctx, *mouse_ctx),
            None => None,
        },
{
    match event {
        Some(InputEvent::Key(k)) => map_key(k, st),
        Some(InputEvent::Mouse(m)) => map_mouse(m, hit_ctx, mouse_ctx),
        Some(InputEvent::Other) => None,
        None => None,
    }
}

/// The outcome of one round: whether an event arrived, and its action.
pub fn handle_input_with_timeout(
    event: Option<InputEvent>,
    st: &InputState,
    hit_ctx: &HitTestContext,
    mouse_ctx: &MouseContext,
) -> (res: InputPoll)
    requires
        mouse_ctx.wf(),
    ensures
        res.event_received == event is Some,
        res.action == match event {
            Some(e) => event_action(e, *st, *hit_ctx, *mouse_ctx),
            None => None,
        },
{
    let action = handle_input(event, st, hit_ctx, mouse_ctx);
    InputPoll { action, event_received: event.is_some() }
}

} // verus!
