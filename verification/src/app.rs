//! Application-level decisions: mapping raw key input to actions, and the
//! action reducer that drives the event loop. The loop itself (terminal
//! I/O, timers, the queue) lives outside; it feeds events in and performs
//! the effects the reducer hands back.

use vstd::prelude::*;

use crate::action::{Action, ComponentMessage, FocusChange, FocusChangeDirection, FocusChangeScope};
use crate::event::{KeyCode, KeyEvent, KeyEventKind};

verus! {

/// The application's own state bits, driven by the reducer.
#[derive(Clone, Copy, Debug, PartialEq, Eq, Structural)]
pub struct AppState {
    pub should_quit: bool,
    pub should_suspend: bool,
}

impl AppState {
    pub fn new() -> (r: AppState)
        ensures
            !r.should_quit && !r.should_suspend,
    {
        AppState { should_quit: false, should_suspend: false }
    }
}

/// What the loop must do for an action beyond updating the state: message
/// broadcasts, screen effects, and focus changes.
#[derive(Clone, Debug, PartialEq)]
pub enum ActionEffect {
    Broadcast(ComponentMessage),
    ClearScreen,
    Resize(u16, u16),
    Render,
    Focus(FocusChange),
}

/// The action a key press maps to at the application level: quit on the
/// control-c/control-d chords, focus movement on (back)tab and on
/// alt-arrows; everything else is left to the focused components.
pub open spec fn spec_key_action(key: KeyEvent) -> Option<Action> {
    if key.modifiers.control && !key.modifiers.shift && !key.modifiers.alt && key.kind
        == KeyEventKind::Press && (key.code == KeyCode::Char('c') || key.code
        == KeyCode::Char('d')) {
        Some(Action::Quit)
    } else if (key.code == KeyCode::Tab || key.code == KeyCode::BackTab) && !key.modifiers.control
        && !key.modifiers.alt && (key.kind == KeyEventKind::Press || key.kind
        == KeyEventKind::Repeat) {
        Some(
            Action::FocusChange(
                FocusChange {
                    direction: if key.modifiers.shift || key.code == KeyCode::BackTab {
                        FocusChangeDirection::Backward
                    } else {
                        FocusChangeDirection::Forward
                    },
                    scope: FocusChangeScope::HorizontalAndVertical,
                },
            ),
        )
    } else if key.modifiers.alt && !key.modifiers.control && !key.modifiers.shift && (key.kind
        == KeyEventKind::Press || key.kind == KeyEventKind::Repeat) && (key.code == KeyCode::Up
        || key.code == KeyCode::Down || key.code == KeyCode::Left || key.code == KeyCode::Right) {
        Some(
            Action::FocusChange(
                FocusChange {
                    direction: if key.code == KeyCode::Down || key.code == KeyCode::Right {
                        FocusChangeDirection::Forward
                    } else {
                        FocusChangeDirection::Backward
                    },
                    scope: if key.code == KeyCode::Up || key.code == KeyCode::Down {
                        FocusChangeScope::Vertical
                    } else {
                        FocusChangeScope::Horizontal
                    },
                },
            ),
        )
    } else {
        None
    }
}

/// Maps a key event to an application action.
pub fn handle_key_event(key: &KeyEvent) -> (r: Option<Action>)
    ensures
        r == spec_key_action(*key),
{
    let press = matches!(key.kind, KeyEventKind::Press);
    let press_or_repeat = matches!(key.kind, KeyEventKind::Press | KeyEventKind::Repeat);
    let is_c_or_d = match key.code {
        KeyCode::Char(c) => c == 'c' || c == 'd',
        _ => false,
    };
    if key.modifiers.control && !key.modifiers.shift && !key.modifiers.alt && press && is_c_or_d {
        return Some(Action::Quit);
    }
    let is_tab = matches!(key.code, KeyCode::Tab | KeyCode::BackTab);
    if is_tab && !key.modifiers.control && !key.modifiers.alt && press_or_repeat {
        let backward = key.modifiers.shift || matches!(key.code, KeyCode::BackTab);
        return Some(
            Action::FocusChange(
                FocusChange {
                    direction: if backward {
                        FocusChangeDirection::Backward
                    } else {
                        FocusChangeDirection::Forward
                    },
                    scope: FocusChangeScope::HorizontalAndVertical,
                },
            ),
        );
    }
    let is_arrow = matches!(key.code, KeyCode::Up | KeyCode::Down | KeyCode::Left | KeyCode::Right);
    if key.modifiers.alt && !key.modifiers.control && !key.modifiers.shift && press_or_repeat
        && is_arrow {
        let forward = matches!(key.code, KeyCode::Down | KeyCode::Right);
        let vertical = matches!(key.code, KeyCode::Up | KeyCode::Down);
        return Some(
            Action::FocusChange(
                FocusChange {
                    direction: if forward {
                        FocusChangeDirection::Forward
                    } else {
                        FocusChangeDirection::Backward
                    },
                    scope: if vertical {
                        FocusChangeScope::Vertical
                    } else {
                        FocusChangeScope::Horizontal
                    },
                },
            ),
        );
    }
    None
}

/// What the reducer does with an action: the state after it, and the
/// effect the loop must perform.
pub open spec fn spec_reduce(state: AppState, action: Action) -> (AppState, Option<ActionEffect>) {
    match action {
        Action::Tick => (state, Some(ActionEffect::Broadcast(ComponentMessage::OnTick))),
        Action::BroadcastMessage(m) => (state, Some(ActionEffect::Broadcast(m))),
        Action::Quit => (AppState { should_quit: true, ..state }, None),
        Action::Suspend => (AppState { should_suspend: true, ..state }, None),
        Action::Resume => (AppState { should_suspend: false, ..state }, None),
        Action::ClearScreen => (state, Some(ActionEffect::ClearScreen)),
        Action::Resize(w, h) => (state, Some(ActionEffect::Resize(w, h))),
        Action::Render => (state, Some(ActionEffect::Render)),
        Action::FocusChange(fc) => (state, Some(ActionEffect::Focus(fc))),
    }
}

/// Applies one action to the application state and returns the effect the
/// loop must perform for it.
pub fn reduce_action(state: &mut AppState, action: Action) -> (r: Option<ActionEffect>)
    ensures
        (*final(state), r) == spec_reduce(*old(state), action),
{
    match action {
        Action::Tick => Some(ActionEffect::Broadcast(ComponentMessage::OnTick)),
        Action::BroadcastMessage(m) => Some(ActionEffect::Broadcast(m)),
        Action::Quit => {
            state.should_quit = true;
            None
        },
        Action::Suspend => {
            state.should_suspend = true;
            None
        },
        Action::Resume => {
            state.should_suspend = false;
            None
        },
        Action::ClearScreen => Some(ActionEffect::ClearScreen),
        Action::Resize(w, h) => Some(ActionEffect::Resize(w, h)),
        Action::Render => Some(ActionEffect::Render),
        Action::FocusChange(fc) => Some(ActionEffect::Focus(fc)),
    }
}

} // verus!
