//! The root of the user interface: the main menu overlay and the scene
//! view, with the root dispatch of terminal events.
//!
//! The run loop around it polls the terminal, hands each event or tick
//! here, performs the returned requests (redraw, exit) and draws. The
//! root's own key handler opens the main menu on Esc and requests an
//! application exit on Ctrl+C; everything else it leaves to the focused
//! child — the main menu while it is open, the scene view otherwise.

use vstd::prelude::*;

use crate::engine::{displaced_scene, scene_tick_safe, GRAVITY, SimulationState};
use crate::icon_button::EngineAction;
use crate::input::{KeyCode, KeyEvent, MouseEvent};
use crate::list_menu::MenuAction;
use crate::main_menu::MainMenu;
use crate::scene_view::SceneView;

verus! {

/// One wake-up of the run loop's event phase, translated to plain
/// values: a key, a mouse event, a resize, or something the interface
/// does not read.
#[derive(Debug, PartialEq, Eq, Structural, Copy, Clone)]
pub enum TerminalEvent {
    Key(KeyEvent),
    Mouse(MouseEvent),
    Resize,
    Other,
}

/// The root node: the main menu overlay and the scene view.
pub struct Gui {
    pub main_menu: MainMenu,
    pub scene_view: SceneView,
}

impl Gui {
    /// Both children are well formed.
    pub open spec fn wf(&self) -> bool {
        self.main_menu.wf() && self.scene_view.wf()
    }

    /// Whether the root's own key handler consumes `ev`: Esc opens the
    /// main menu, Ctrl+C requests an exit.
    pub open spec fn own_key_handled(&self, ev: KeyEvent) -> bool {
        ev.code == KeyCode::Esc || (ev.code == KeyCode::Char('c') && ev.ctrl)
    }

    /// Whether the focused child's subtree consumes the key event: the
    /// main menu while open, the scene view otherwise.
    pub open spec fn key_child_handled(&self, ev: KeyEvent) -> bool {
        if self.main_menu.is_open {
            self.main_menu.list_menu.key_handled(ev)
        } else {
            self.scene_view.key_handled(ev)
        }
    }

    /// Whether dispatching the key event anywhere consumes it.
    pub open spec fn key_handled(&self, ev: KeyEvent) -> bool {
        self.key_child_handled(ev) || self.own_key_handled(ev)
    }

    /// The own-handler chain of one key dispatch from the root, root
    /// first, deepest focused leaf last: the root's own handler, then
    /// the open main menu — which has no own key handler — and its list,
    /// or else the scene view's chain.
    pub open spec fn key_chain(&self, ev: KeyEvent) -> Seq<bool> {
        if self.main_menu.is_open {
            seq![self.own_key_handled(ev), false, self.main_menu.list_menu.key_handled(ev)]
        } else {
            seq![self.own_key_handled(ev)] + self.scene_view.key_chain(ev)
        }
    }

    /// Whether dispatching the key event requests an application exit:
    /// the menu's exit item, or Ctrl+C reaching the root's own handler.
    pub open spec fn key_exit(&self, ev: KeyEvent) -> bool {
        ||| (self.main_menu.is_open && self.main_menu.list_menu.key_action(ev) == Some(
            MenuAction::Exit,
        ))
        ||| (!self.key_child_handled(ev) && ev.code == KeyCode::Char('c') && ev.ctrl)
    }

    /// Whether dispatching the key event leaves the main menu open.
    pub open spec fn menu_open_after_key(&self, ev: KeyEvent) -> bool {
        if self.main_menu.is_open {
            !(self.main_menu.list_menu.key_action(ev) == Some(MenuAction::Resume))
        } else {
            !self.scene_view.key_handled(ev) && ev.code == KeyCode::Esc
        }
    }

    /// The own-handler chain of one mouse dispatch from the root, root
    /// first: the root has no own mouse handler, and its hit-tested
    /// focus is the main menu only while it is open.
    pub open spec fn mouse_chain(&self, ev: MouseEvent) -> Seq<bool> {
        if self.main_menu.is_open {
            seq![false] + self.main_menu.mouse_chain(ev)
        } else {
            seq![false]
        }
    }

    /// A fresh interface: menu closed, fresh scene view.
    pub fn new() -> (r: Gui)
        ensures
            r.wf(),
            !r.main_menu.is_open,
            r.main_menu.list_menu.selected is None,
            r.main_menu.list_menu.items@.len() == 2,
            r.main_menu.list_menu.items@[0].hotkey == KeyCode::Esc,
            r.main_menu.list_menu.items@[0].action == MenuAction::Resume,
            r.main_menu.list_menu.items@[1].hotkey == KeyCode::Char('q'),
            r.main_menu.list_menu.items@[1].action == MenuAction::Exit,
            r.scene_view.engine.state() == SimulationState::Cleared,
            r.scene_view.engine.static_objects() == Seq::<crate::scene::Object>::empty(),
            r.scene_view.engine.sim_objects() == Seq::<crate::scene::Object>::empty(),
            !r.scene_view.focus_on_world_view(),
    {
        Gui { main_menu: MainMenu::new(), scene_view: SceneView::new() }
    }

    /// Dispatches a key event: first into the focused child — the open
    /// main menu, else the scene view — then, on a miss, into the root's
    /// own handler. Returns whether the event was consumed and whether
    /// an application exit is requested.
    pub fn submit_key_event(&mut self, key_event: &KeyEvent) -> (r: (bool, bool))
        requires
            old(self).wf(),
        ensures
            final(self).wf(),
            r.0 == old(self).key_handled(*key_event),
            r.0 == crate::dispatch::subtree_handled(old(self).key_chain(*key_event), 0),
            r.1 == old(self).key_exit(*key_event),
            final(self).main_menu.is_open == old(self).menu_open_after_key(*key_event),
            final(self).main_menu.list_menu.items == old(self).main_menu.list_menu.items,
            final(self).main_menu.area == old(self).main_menu.area,
            // with the menu open the scene view is not touched
            old(self).main_menu.is_open ==> {
                &&& final(self).scene_view == old(self).scene_view
                &&& final(self).main_menu.list_menu.selected == (if !old(
                    self,
                ).main_menu.list_menu.key_handled(*key_event) && key_event.code == KeyCode::Esc {
                    Some(0usize)
                } else {
                    old(self).main_menu.list_menu.selected_after_key(*key_event)
                })
            },
            // with the menu closed the event goes through the scene view
            !old(self).main_menu.is_open ==> {
                &&& final(self).main_menu.list_menu.selected == (if !old(
                    self,
                ).scene_view.key_handled(*key_event) && key_event.code == KeyCode::Esc {
                    Some(0usize)
                } else {
                    old(self).main_menu.list_menu.selected
                })
                &&& final(self).scene_view.engine.state()
                    == SceneView::state_after_action(
                    old(self).scene_view.engine.state(),
                    old(self).scene_view.key_engine_action(*key_event),
                )
                &&& final(self).scene_view.engine.sim_objects() == (if old(
                    self,
                ).scene_view.key_engine_action(*key_event) == Some(EngineAction::Reset) {
                    old(self).scene_view.engine.static_objects()
                } else {
                    old(self).scene_view.engine.sim_objects()
                })
                &&& final(self).scene_view.engine.static_objects() == old(
                    self,
                ).scene_view.engine.static_objects()
                &&& final(self).scene_view.engine.level() == old(self).scene_view.engine.level()
                &&& final(self).scene_view.world_view.spec_edit_mode() == (if old(
                    self,
                ).scene_view.focus_on_world_view() {
                    old(self).scene_view.world_view.spec_edit_mode() && !(key_event.code
                        == KeyCode::Esc)
                } else {
                    old(self).scene_view.world_view.spec_edit_mode()
                })
                &&& final(self).scene_view.world_menu.simulation_controls == old(
                    self,
                ).scene_view.world_menu.simulation_controls
                &&& final(self).scene_view.world_menu.focused_button_idx == (if old(
                    self,
                ).scene_view.focus_on_world_view() || old(
                    self,
                ).scene_view.world_menu.child_key_handled(*key_event) {
                    old(self).scene_view.world_menu.focused_button_idx
                } else {
                    old(self).scene_view.world_menu.focus_after_key(*key_event)
                })
            },
    {
        proof {
            let ev = *key_event;
            let own = old(self).own_key_handled(ev);
            if old(self).main_menu.is_open {
                let list = old(self).main_menu.list_menu.key_handled(ev);
                assert(old(self).key_chain(ev) =~= seq![own] + (seq![false] + seq![list]));
                crate::dispatch::lemma_subtree_handled_cons(own, seq![false] + seq![list]);
                crate::dispatch::lemma_subtree_handled_cons(false, seq![list]);
                crate::dispatch::lemma_subtree_handled_single(list);
            } else {
                let view = old(self).scene_view;
                crate::dispatch::lemma_subtree_handled_cons(own, view.key_chain(ev));
                if view.focus_on_world_view() {
                    let leaf = view.world_view.own_key_handled(ev);
                    assert(view.key_chain(ev) =~= seq![false] + seq![leaf]);
                    crate::dispatch::lemma_subtree_handled_cons(false, seq![leaf]);
                    crate::dispatch::lemma_subtree_handled_single(leaf);
                } else {
                    let menu = view.world_menu;
                    let menu_own = menu.own_key_handled(ev);
                    crate::dispatch::lemma_subtree_handled_cons(false, menu.key_chain(ev));
                    match menu.focused_button_idx {
                        Some(i) => {
                            let button = menu.simulation_controls@[i as int].key_handled(ev);
                            assert(menu.key_chain(ev) =~= seq![menu_own] + seq![button]);
                            crate::dispatch::lemma_subtree_handled_cons(menu_own, seq![button]);
                            crate::dispatch::lemma_subtree_handled_single(button);
                        },
                        None => {
                            assert(menu.key_chain(ev) =~= seq![menu_own]);
                            crate::dispatch::lemma_subtree_handled_single(menu_own);
                        },
                    }
                }
            }
        }
        // Forward the key event to the focused child first.
        let (child_handled, exit) = if self.main_menu.is_open() {
            self.main_menu.submit_key_event(key_event)
        } else {
            let handled = self.scene_view.submit_key_event(key_event);
            (handled, false)
        };
        if child_handled {
            return (true, exit);
        }

        // The child left the event unconsumed: one attempt for the
        // root's own handler.
        if key_event.code == KeyCode::Esc {
            // Escape toggles the main menu open.
            self.main_menu.open();
            (true, false)
        } else if key_event.code == KeyCode::Char('c') && key_event.ctrl {
            (true, true)
        } else {
            // The root is the outermost node: an unused event is
            // discarded.
            (false, false)
        }
    }

    /// Dispatches a mouse event: into the open main menu, else nowhere —
    /// the root and the scene view have no pointer handlers. Returns
    /// whether the event was consumed and whether an exit is requested.
    pub fn submit_mouse_event(&mut self, mouse_event: &MouseEvent) -> (r: (bool, bool))
        requires
            old(self).wf(),
        ensures
            final(self).wf(),
            r.0 == crate::dispatch::subtree_handled(old(self).mouse_chain(*mouse_event), 0),
            final(self).scene_view == old(self).scene_view,
            final(self).main_menu.list_menu.items == old(self).main_menu.list_menu.items,
            final(self).main_menu.area == old(self).main_menu.area,
            !old(self).main_menu.is_open ==> *final(self) == *old(self) && r == (false, false),
            old(self).main_menu.is_open ==> {
                &&& r.0 == (old(self).main_menu.child_mouse_handled(*mouse_event) || old(
                    self,
                ).main_menu.own_mouse_handled(*mouse_event))
                &&& r.1 == (old(self).main_menu.mouse_inside(*mouse_event) && old(
                    self,
                ).main_menu.list_menu.mouse_action(*mouse_event) == Some(MenuAction::Exit))
                &&& final(self).main_menu.is_open == !((old(self).main_menu.mouse_inside(
                    *mouse_event,
                ) && old(self).main_menu.list_menu.mouse_action(*mouse_event) == Some(
                    MenuAction::Resume,
                )) || (!old(self).main_menu.mouse_inside(*mouse_event) && mouse_event.kind
                    == crate::input::MouseEventKind::LeftDown))
                &&& final(self).main_menu.list_menu.selected == (if old(self).main_menu.mouse_inside(
                    *mouse_event,
                ) {
                    old(self).main_menu.list_menu.selected_after_mouse(*mouse_event)
                } else {
                    old(self).main_menu.list_menu.selected
                })
            },
    {
        proof {
            let ev = *mouse_event;
            if old(self).main_menu.is_open {
                let menu = old(self).main_menu;
                let own = menu.own_mouse_handled(ev);
                crate::dispatch::lemma_subtree_handled_cons(false, menu.mouse_chain(ev));
                if menu.mouse_inside(ev) {
                    let list = menu.list_menu.mouse_handled(ev);
                    assert(menu.mouse_chain(ev) =~= seq![own] + seq![list]);
                    crate::dispatch::lemma_subtree_handled_cons(own, seq![list]);
                    crate::dispatch::lemma_subtree_handled_single(list);
                } else {
                    assert(menu.mouse_chain(ev) =~= seq![own]);
                    crate::dispatch::lemma_subtree_handled_single(own);
                }
            } else {
                crate::dispatch::lemma_subtree_handled_single(false);
            }
        }
        if self.main_menu.is_open() {
            self.main_menu.submit_mouse_event(mouse_event)
        } else {
            (false, false)
        }
    }

    /// Handles one terminal event of the run loop: keys and mouse events
    /// are dispatched through the tree, a resize only asks for a redraw.
    /// Returns whether a redraw is needed and whether an exit is
    /// requested.
    pub fn handle_terminal_event(&mut self, event: TerminalEvent) -> (r: (bool, bool))
        requires
            old(self).wf(),
        ensures
            final(self).wf(),
            r.0 == (event !is Other),
            r.1 == (match event {
                TerminalEvent::Key(k) => old(self).key_exit(k),
                TerminalEvent::Mouse(m) => old(self).main_menu.is_open
                    && old(self).main_menu.mouse_inside(m) && old(self).main_menu.list_menu.mouse_action(
                    m,
                ) == Some(MenuAction::Exit),
                _ => false,
            }),
            final(self).scene_view.engine.static_objects() == old(
                self,
            ).scene_view.engine.static_objects(),
            final(self).scene_view.engine.level() == old(self).scene_view.engine.level(),
            (event is Resize || event is Other) ==> *final(self) == *old(self),
            event matches TerminalEvent::Key(k) ==> final(self).main_menu.is_open == old(
                self,
            ).menu_open_after_key(k),
            (event is Mouse || event is Resize || event is Other) ==> final(self).scene_view.engine
                == old(self).scene_view.engine,
    {
        match event {
            TerminalEvent::Key(key_event) => {
                let (_handled, exit) = self.submit_key_event(&key_event);
                (true, exit)
            },
            TerminalEvent::Mouse(mouse_event) => {
                let (_handled, exit) = self.submit_mouse_event(&mouse_event);
                (true, exit)
            },
            TerminalEvent::Resize => {
                // A resized terminal needs a redraw and nothing else.
                (true, false)
            },
            TerminalEvent::Other => (false, false),
        }
    }

    /// One step of the run loop's physics phase, delegated to the scene
    /// view: ticks only while the simulation runs, and reports whether a
    /// redraw is needed.
    pub fn physics_tick(&mut self) -> (r: bool)
        requires
            old(self).scene_view.engine.state() == SimulationState::Running ==> scene_tick_safe(
                old(self).scene_view.engine.sim_objects(),
            ),
        ensures
            r == (old(self).scene_view.engine.state() == SimulationState::Running),
            final(self).main_menu == old(self).main_menu,
            final(self).scene_view.world_view == old(self).scene_view.world_view,
            final(self).scene_view.world_menu == old(self).scene_view.world_menu,
            final(self).scene_view.engine.state() == old(self).scene_view.engine.state(),
            final(self).scene_view.engine.static_objects() == old(
                self,
            ).scene_view.engine.static_objects(),
            final(self).scene_view.engine.level() == old(self).scene_view.engine.level(),
            if r {
                displaced_scene(
                    old(self).scene_view.engine.sim_objects(),
                    final(self).scene_view.engine.sim_objects(),
                    GRAVITY as int,
                )
            } else {
                final(self).scene_view.engine.sim_objects() == old(
                    self,
                ).scene_view.engine.sim_objects()
            },
    {
        self.scene_view.physics_tick()
    }
}

} // verus!
