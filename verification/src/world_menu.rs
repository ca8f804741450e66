//! The row of transport controls below the scene: a start/pause toggle
//! and a reset button, with a circularly wrapping focused-button index.
//!
//! Dispatch forwards a key first to the focused button; only when the
//! button leaves it unconsumed does the menu's own handler get its one
//! attempt, moving the focus with Left and Right.

use vstd::prelude::*;

use crate::icon_button::{EngineAction, IconButton};
use crate::input::{KeyCode, KeyEvent};

verus! {

/// The transport controls with the focused-button index.
pub struct WorldMenu {
    pub focused_button_idx: Option<usize>,
    pub simulation_controls: Vec<IconButton>,
}

impl WorldMenu {
    /// There is at least one control and the focus, when present, names
    /// an existing button. A focus outside the buttons is a caller bug
    /// and fails fast rather than being absorbed.
    pub open spec fn wf(&self) -> bool {
        &&& self.simulation_controls@.len() > 0
        &&& self.focused_button_idx matches Some(i) ==> i < self.simulation_controls@.len()
    }

    /// Whether the focused button consumes `ev`.
    pub open spec fn child_key_handled(&self, ev: KeyEvent) -> bool {
        self.focused_button_idx is Some && (ev.code == KeyCode::Enter || ev.code == KeyCode::Char(
            ' ',
        ))
    }

    /// Whether the menu's own handler consumes `ev`: it reacts to Left
    /// and Right alone.
    pub open spec fn own_key_handled(&self, ev: KeyEvent) -> bool {
        ev.code == KeyCode::Left || ev.code == KeyCode::Right
    }

    /// The simulation action that dispatching `ev` into the menu
    /// requests: the focused button's action on Enter or Space.
    pub open spec fn key_action(&self, ev: KeyEvent) -> Option<EngineAction> {
        match self.focused_button_idx {
            Some(i) => if ev.code == KeyCode::Enter || ev.code == KeyCode::Char(' ') {
                Some(self.simulation_controls@[i as int].action)
            } else {
                None
            },
            None => None,
        }
    }

    /// The focused-button index after the menu's own handler ran on
    /// `ev`: Left and Right move an existing focus circularly and leave
    /// an absent one absent.
    pub open spec fn focus_after_key(&self, ev: KeyEvent) -> Option<usize> {
        let len = self.simulation_controls@.len();
        match self.focused_button_idx {
            None => None,
            Some(i) => if ev.code == KeyCode::Left {
                if i == 0 {
                    Some((len - 1) as usize)
                } else {
                    Some((i - 1) as usize)
                }
            } else if ev.code == KeyCode::Right {
                if i + 1 >= len {
                    Some(0usize)
                } else {
                    Some((i + 1) as usize)
                }
            } else {
                Some(i)
            },
        }
    }

    /// The own-handler chain of one key dispatch into the menu, root
    /// first: the menu's own handler, then the focused button's.
    pub open spec fn key_chain(&self, ev: KeyEvent) -> Seq<bool> {
        match self.focused_button_idx {
            Some(i) => seq![
                self.own_key_handled(ev),
                self.simulation_controls@[i as int].key_handled(ev),
            ],
            None => seq![self.own_key_handled(ev)],
        }
    }

    /// A fresh menu: the start/pause toggle and the reset button, with
    /// the focus on the first.
    pub fn new() -> (r: WorldMenu)
        ensures
            r.wf(),
            r.focused_button_idx == Some(0usize),
            r.simulation_controls@.len() == 2,
            r.simulation_controls@[0].action == EngineAction::StartPause,
            r.simulation_controls@[1].action == EngineAction::Reset,
            r.simulation_controls@[0].title@ == "Start/Pause (1)"@,
            r.simulation_controls@[1].title@ == "Reset (2)"@,
    {
        let mut simulation_controls: Vec<IconButton> = Vec::new();
        simulation_controls.push(
            IconButton::new("Start/Pause (1)".to_owned(), EngineAction::StartPause),
        );
        simulation_controls.push(IconButton::new("Reset (2)".to_owned(), EngineAction::Reset));
        WorldMenu { focused_button_idx: Some(0), simulation_controls }
    }

    /// Dispatches a key event: first into the focused button, then, on a
    /// miss, into the menu's own handler. Returns whether the event was
    /// consumed and the simulation action it requests.
    pub fn submit_key_event(&mut self, key_event: &KeyEvent) -> (r: (bool, Option<EngineAction>))
        requires
            old(self).wf(),
        ensures
            final(self).wf(),
            final(self).simulation_controls == old(self).simulation_controls,
            r.0 == (old(self).child_key_handled(*key_event) || old(self).own_key_handled(
                *key_event,
            )),
            r.0 == crate::dispatch::subtree_handled(old(self).key_chain(*key_event), 0),
            r.1 == old(self).key_action(*key_event),
            final(self).focused_button_idx == (if old(self).child_key_handled(*key_event) {
                old(self).focused_button_idx
            } else {
                old(self).focus_after_key(*key_event)
            }),
    {
        proof {
            let ev = *key_event;
            let own = old(self).own_key_handled(ev);
            match old(self).focused_button_idx {
                Some(i) => {
                    let button = old(self).simulation_controls@[i as int].key_handled(ev);
                    assert(old(self).key_chain(ev) =~= seq![own] + seq![button]);
                    crate::dispatch::lemma_subtree_handled_cons(own, seq![button]);
                    crate::dispatch::lemma_subtree_handled_single(button);
                },
                None => {
                    assert(old(self).key_chain(ev) =~= seq![own]);
                    crate::dispatch::lemma_subtree_handled_single(own);
                },
            }
        }
        // Forward the key event to the focused button first.
        match self.focused_button_idx {
            Some(idx) => {
                let action = self.simulation_controls[idx].handle_key_event(key_event);
                if action.is_some() {
                    return (true, action);
                }
            },
            None => {},
        }

        // The button left the event unconsumed: one attempt for the
        // menu's own handler.
        match key_event.code {
            KeyCode::Left => {
                match self.focused_button_idx {
                    Some(idx) => {
                        let new_idx: usize = if idx == 0 {
                            self.simulation_controls.len() - 1
                        } else {
                            idx - 1
                        };
                        self.focused_button_idx = Some(new_idx);
                    },
                    None => {},
                }
                (true, None)
            },
            KeyCode::Right => {
                match self.focused_button_idx {
                    Some(idx) => {
                        let new_idx: usize = if idx >= self.simulation_controls.len() - 1 {
                            0
                        } else {
                            idx + 1
                        };
                        self.focused_button_idx = Some(new_idx);
                    },
                    None => {},
                }
                (true, None)
            },
            _ => (false, None),
        }
    }
}

} // verus!
