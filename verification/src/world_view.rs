//! The scene canvas node. It tracks an edit-mode flag that decides where
//! the scene view routes keyboard focus; rendering the scene itself is
//! the renderer's business.

use vstd::prelude::*;

use crate::input::{KeyCode, KeyEvent};

verus! {

/// Renders the current scene and tracks whether edit mode is active.
pub struct WorldView {
    is_edit_mode_active: bool,
}

impl WorldView {
    /// Whether edit mode is active.
    pub closed spec fn spec_edit_mode(&self) -> bool {
        self.is_edit_mode_active
    }

    /// Whether the node's own handler consumes `ev`: it reacts to Esc
    /// alone, to leave edit mode.
    pub open spec fn own_key_handled(&self, ev: KeyEvent) -> bool {
        ev.code == KeyCode::Esc
    }

    /// A fresh view, with edit mode off.
    pub fn new() -> (r: WorldView)
        ensures
            !r.spec_edit_mode(),
    {
        WorldView { is_edit_mode_active: false }
    }

    /// Whether edit mode is active.
    pub fn is_edit_mode_active(&self) -> (r: bool)
        ensures
            r == self.spec_edit_mode(),
    {
        self.is_edit_mode_active
    }

    /// Esc leaves edit mode and is consumed; every other key is left for
    /// the owner.
    pub fn handle_key_event(&mut self, key_event: &KeyEvent) -> (r: bool)
        ensures
            r == old(self).own_key_handled(*key_event),
            final(self).spec_edit_mode() == (if key_event.code == KeyCode::Esc {
                false
            } else {
                old(self).spec_edit_mode()
            }),
    {
        match key_event.code {
            KeyCode::Esc => {
                self.is_edit_mode_active = false;
                true
            },
            _ => false,
        }
    }
}

} // verus!
