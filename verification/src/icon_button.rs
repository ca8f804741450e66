//! A transport-control button: a title, and the simulation action it is
//! bound to. Drawing the icon is the renderer's business; dispatch only
//! needs the binding.

use vstd::prelude::*;

use crate::input::{KeyCode, KeyEvent};

verus! {

/// The simulation actions the transport controls can request.
#[derive(Debug, PartialEq, Eq, Structural, Copy, Clone)]
pub enum EngineAction {
    /// Start a paused or cleared simulation, pause a running one.
    StartPause,
    /// Restore the working scene from the static template.
    Reset,
}

/// A button with a title and a bound simulation action.
#[derive(Debug, PartialEq)]
pub struct IconButton {
    pub title: String,
    pub action: EngineAction,
}

impl IconButton {
    /// Whether the button's own handler consumes `ev`: it reacts to
    /// Enter and Space alone.
    pub open spec fn key_handled(&self, ev: KeyEvent) -> bool {
        ev.code == KeyCode::Enter || ev.code == KeyCode::Char(' ')
    }

    /// A button bound to `action`.
    pub fn new(title: String, action: EngineAction) -> (r: IconButton)
        ensures
            r.title == title,
            r.action == action,
    {
        IconButton { title, action }
    }

    /// Enter or Space activates the button's bound action; every other
    /// key is left for the owner.
    pub fn handle_key_event(&self, key_event: &KeyEvent) -> (r: Option<EngineAction>)
        ensures
            r == (if self.key_handled(*key_event) {
                Some(self.action)
            } else {
                None::<EngineAction>
            }),
    {
        match key_event.code {
            KeyCode::Enter => Some(self.action),
            KeyCode::Char(c) => if c == ' ' {
                Some(self.action)
            } else {
                None
            },
            _ => None,
        }
    }
}

} // verus!
