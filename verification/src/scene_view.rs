//! The scene view: owner of the engine, composing the scene canvas and
//! the transport controls as its two focus children.
//!
//! Keyboard focus goes to the canvas while edit mode is active and to
//! the transport controls otherwise. The controls request simulation
//! actions; the view, as the engine's single owner, applies them in one
//! place.

use vstd::prelude::*;

use crate::engine::{displaced_scene, scene_tick_safe, Engine, GRAVITY, SimulationState};
use crate::icon_button::EngineAction;
use crate::input::KeyEvent;
use crate::level::Level;
use crate::scene::{buildable, level_error, scene_spec, IndexError, Scene};
use crate::world_menu::WorldMenu;
use crate::world_view::WorldView;

verus! {

/// The engine with the two focus children that view and control it.
pub struct SceneView {
    pub engine: Engine,
    pub world_view: WorldView,
    pub world_menu: WorldMenu,
}

impl SceneView {
    /// The transport controls below are well formed.
    pub open spec fn wf(&self) -> bool {
        self.world_menu.wf()
    }

    /// Whether keyboard focus is on the scene canvas rather than the
    /// transport controls.
    pub open spec fn focus_on_world_view(&self) -> bool {
        self.world_view.spec_edit_mode()
    }

    /// Whether dispatching `ev` into the view consumes it.
    pub open spec fn key_handled(&self, ev: KeyEvent) -> bool {
        if self.focus_on_world_view() {
            self.world_view.own_key_handled(ev)
        } else {
            self.world_menu.child_key_handled(ev) || self.world_menu.own_key_handled(ev)
        }
    }

    /// The simulation action that dispatching `ev` into the view
    /// requests of the engine.
    pub open spec fn key_engine_action(&self, ev: KeyEvent) -> Option<EngineAction> {
        if self.focus_on_world_view() {
            None
        } else {
            self.world_menu.key_action(ev)
        }
    }

    /// The own-handler chain of one key dispatch into the view, root
    /// first: the view itself never consumes a key, then the chain of
    /// the focused child.
    pub open spec fn key_chain(&self, ev: KeyEvent) -> Seq<bool> {
        if self.focus_on_world_view() {
            seq![false, self.world_view.own_key_handled(ev)]
        } else {
            seq![false] + self.world_menu.key_chain(ev)
        }
    }

    /// The simulation state after the engine applied `action`: the
    /// toggle starts a paused or cleared simulation and pauses a running
    /// one; a reset always clears.
    pub open spec fn state_after_action(
        state: SimulationState,
        action: Option<EngineAction>,
    ) -> SimulationState {
        match action {
            Some(EngineAction::StartPause) => if state == SimulationState::Running {
                SimulationState::Paused
            } else {
                SimulationState::Running
            },
            Some(EngineAction::Reset) => SimulationState::Cleared,
            None => state,
        }
    }

    /// A fresh view: a fresh engine, edit mode off, focus on the first
    /// transport control.
    pub fn new() -> (r: SceneView)
        ensures
            r.wf(),
            !r.focus_on_world_view(),
            r.engine.state() == SimulationState::Cleared,
            r.engine.static_objects() == Seq::<crate::scene::Object>::empty(),
            r.engine.sim_objects() == Seq::<crate::scene::Object>::empty(),
            r.world_menu.focused_button_idx == Some(0usize),
            r.world_menu.simulation_controls@.len() == 2,
            r.world_menu.simulation_controls@[0].action == EngineAction::StartPause,
            r.world_menu.simulation_controls@[1].action == EngineAction::Reset,
    {
        SceneView { engine: Engine::new(), world_view: WorldView::new(), world_menu: WorldMenu::new() }
    }

    /// Loads `level` into the engine: build-then-swap, leaving the
    /// engine untouched on failure.
    pub fn set_level(&mut self, level: Level) -> (r: Result<(), IndexError>)
        ensures
            final(self).world_view == old(self).world_view,
            final(self).world_menu == old(self).world_menu,
            match r {
                Ok(_) => {
                    &&& buildable(&level)
                    &&& final(self).engine.level() == level
                    &&& final(self).engine.static_objects() == scene_spec(&level)
                    &&& final(self).engine.sim_objects() == scene_spec(&level)
                    &&& final(self).engine.state() == SimulationState::Cleared
                },
                Err(e) => {
                    &&& !buildable(&level)
                    &&& level_error(&level) == Some(e.index)
                    &&& final(self).engine == old(self).engine
                },
            },
    {
        self.engine.set_level(level)
    }

    /// The current working scene, as the renderer reads it.
    pub fn get_scene(&self) -> (r: &Scene)
        ensures
            r@ == self.engine.sim_objects(),
    {
        self.engine.get_scene()
    }

    /// Dispatches a key event into the focused child — the canvas in
    /// edit mode, the transport controls otherwise — and applies the
    /// requested simulation action to the engine.
    pub fn submit_key_event(&mut self, key_event: &KeyEvent) -> (r: bool)
        requires
            old(self).wf(),
        ensures
            final(self).wf(),
            r == old(self).key_handled(*key_event),
            r == crate::dispatch::subtree_handled(old(self).key_chain(*key_event), 0),
            // the engine moves exactly by the requested action
            final(self).engine.state() == Self::state_after_action(
                old(self).engine.state(),
                old(self).key_engine_action(*key_event),
            ),
            final(self).engine.sim_objects() == (if old(self).key_engine_action(*key_event)
                == Some(EngineAction::Reset) {
                old(self).engine.static_objects()
            } else {
                old(self).engine.sim_objects()
            }),
            final(self).engine.static_objects() == old(self).engine.static_objects(),
            final(self).engine.level() == old(self).engine.level(),
            // the canvas reacts only while it has focus
            final(self).world_view.spec_edit_mode() == (if old(self).focus_on_world_view() {
                old(self).world_view.spec_edit_mode() && !(key_event.code
                    == crate::input::KeyCode::Esc)
            } else {
                old(self).world_view.spec_edit_mode()
            }),
            // the controls react only while they have focus
            final(self).world_menu.simulation_controls == old(self).world_menu.simulation_controls,
            final(self).world_menu.focused_button_idx == (if old(self).focus_on_world_view()
                || old(self).world_menu.child_key_handled(*key_event) {
                old(self).world_menu.focused_button_idx
            } else {
                old(self).world_menu.focus_after_key(*key_event)
            }),
    {
        proof {
            let ev = *key_event;
            if old(self).focus_on_world_view() {
                let own = old(self).world_view.own_key_handled(ev);
                assert(old(self).key_chain(ev) =~= seq![false] + seq![own]);
                crate::dispatch::lemma_subtree_handled_cons(false, seq![own]);
                crate::dispatch::lemma_subtree_handled_single(own);
            } else {
                let menu = old(self).world_menu;
                let own = menu.own_key_handled(ev);
                crate::dispatch::lemma_subtree_handled_cons(false, menu.key_chain(ev));
                match menu.focused_button_idx {
                    Some(i) => {
                        let button = menu.simulation_controls@[i as int].key_handled(ev);
                        assert(menu.key_chain(ev) =~= seq![own] + seq![button]);
                        crate::dispatch::lemma_subtree_handled_cons(own, seq![button]);
                        crate::dispatch::lemma_subtree_handled_single(button);
                    },
                    None => {
                        assert(menu.key_chain(ev) =~= seq![own]);
                        crate::dispatch::lemma_subtree_handled_single(own);
                    },
                }
            }
        }
        if self.world_view.is_edit_mode_active() {
            self.world_view.handle_key_event(key_event)
        } else {
            let (handled, action) = self.world_menu.submit_key_event(key_event);
            match action {
                Some(EngineAction::StartPause) => {
                    let running = *self.engine.simulation_state() == SimulationState::Running;
                    if running {
                        self.engine.pause_simulation();
                    } else {
                        self.engine.start_simulation();
                    }
                },
                Some(EngineAction::Reset) => self.engine.reset_simulation(),
                None => {},
            }
            handled
        }
    }

    /// One step of the run loop's physics phase: ticks the engine only
    /// while the simulation is running, and reports whether a redraw is
    /// needed — true exactly when a tick was performed.
    pub fn physics_tick(&mut self) -> (r: bool)
        requires
            old(self).engine.state() == SimulationState::Running ==> scene_tick_safe(
                old(self).engine.sim_objects(),
            ),
        ensures
            r == (old(self).engine.state() == SimulationState::Running),
            final(self).world_view == old(self).world_view,
            final(self).world_menu == old(self).world_menu,
            final(self).engine.state() == old(self).engine.state(),
            final(self).engine.static_objects() == old(self).engine.static_objects(),
            final(self).engine.level() == old(self).engine.level(),
            if r {
                displaced_scene(
                    old(self).engine.sim_objects(),
                    final(self).engine.sim_objects(),
                    GRAVITY as int,
                )
            } else {
                final(self).engine.sim_objects() == old(self).engine.sim_objects()
            },
    {
        let running = *self.engine.simulation_state() == SimulationState::Running;
        if running {
            self.engine.simulate_scene_tick();
            true
        } else {
            false
        }
    }
}

} // verus!
