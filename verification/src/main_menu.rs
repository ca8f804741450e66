//! The modal main menu: a popup over the scene holding a list menu with
//! the "back to game" and "exit" actions.
//!
//! While open it takes all keyboard focus and hit-tested mouse focus; a
//! click outside its area closes it (the click is still consumed). Its
//! popup lifecycle is open/close/is-open plus a layout rule for the
//! inner area the overlay renders into.

use vstd::prelude::*;

use crate::input::{KeyCode, KeyEvent, MouseEvent, MouseEventKind, Rect, is_inside, is_inside_spec, sat_add_u16};
use crate::list_menu::{ListMenu, ListMenuItem, MenuAction};

verus! {

/// The modal main menu and the screen area it was last drawn into.
pub struct MainMenu {
    pub is_open: bool,
    pub list_menu: ListMenu,
    pub area: Rect,
}

/// The layout rule for the overlay: 50 cells of horizontal and 10 rows
/// of vertical margin on each side, one tenth of the remaining height.
pub open spec fn spec_inner_area(outer: Rect) -> Rect {
    let width = if outer.width >= 100 {
        (outer.width - 100) as u16
    } else {
        0u16
    };
    let remaining_height = if outer.height >= 20 {
        (outer.height - 20) as u16
    } else {
        0u16
    };
    Rect {
        x: sat_add_u16(outer.x, 50),
        y: sat_add_u16(outer.y, 10),
        width,
        height: (remaining_height / 10) as u16,
    }
}

impl MainMenu {
    /// The list menu below is well formed.
    pub open spec fn wf(&self) -> bool {
        self.list_menu.wf()
    }

    /// Whether the pointer cell of `ev` lies in the menu's area.
    pub open spec fn mouse_inside(&self, ev: MouseEvent) -> bool {
        is_inside_spec(ev, self.area)
    }

    /// Whether the hit-tested child (the list menu) consumes `ev`.
    pub open spec fn child_mouse_handled(&self, ev: MouseEvent) -> bool {
        self.mouse_inside(ev) && self.list_menu.mouse_handled(ev)
    }

    /// Whether the menu's own mouse handler consumes `ev`: a left click
    /// outside the area closes the menu and swallows the click.
    pub open spec fn own_mouse_handled(&self, ev: MouseEvent) -> bool {
        ev.kind == MouseEventKind::LeftDown && !self.mouse_inside(ev)
    }

    /// The own-handler chain of one mouse dispatch into the menu, root
    /// first: the menu's own handler, then — only while the pointer is
    /// inside, since focus is hit-tested per event — the list menu's.
    pub open spec fn mouse_chain(&self, ev: MouseEvent) -> Seq<bool> {
        if self.mouse_inside(ev) {
            seq![self.own_mouse_handled(ev), self.list_menu.mouse_handled(ev)]
        } else {
            seq![self.own_mouse_handled(ev)]
        }
    }

    /// A fresh menu, closed, holding the "back to game" and "exit"
    /// items.
    pub fn new() -> (r: MainMenu)
        ensures
            r.wf(),
            !r.is_open,
            r.list_menu.selected is None,
            r.list_menu.items@.len() == 2,
            r.list_menu.items@[0].hotkey == KeyCode::Esc,
            r.list_menu.items@[0].action == MenuAction::Resume,
            r.list_menu.items@[0].title@ == "Back to game (Esc)"@,
            r.list_menu.items@[1].hotkey == KeyCode::Char('q'),
            r.list_menu.items@[1].action == MenuAction::Exit,
            r.list_menu.items@[1].title@ == "Exit to terminal (Q)"@,
            r.list_menu.title@ == "Main Menu"@,
            r.area == (Rect { x: 0u16, y: 0u16, width: 0u16, height: 0u16 }),
    {
        let mut items: Vec<ListMenuItem> = Vec::new();
        items.push(
            ListMenuItem {
                title: "Back to game (Esc)".to_owned(),
                hotkey: KeyCode::Esc,
                action: MenuAction::Resume,
            },
        );
        items.push(
            ListMenuItem {
                title: "Exit to terminal (Q)".to_owned(),
                hotkey: KeyCode::Char('q'),
                action: MenuAction::Exit,
            },
        );
        MainMenu {
            is_open: false,
            list_menu: ListMenu::new("Main Menu".to_owned(), items),
            area: Rect::zero(),
        }
    }

    /// Opens the menu and moves its selection back to the first item.
    pub fn open(&mut self)
        requires
            old(self).wf(),
        ensures
            final(self).wf(),
            final(self).is_open,
            final(self).list_menu.selected == Some(0usize),
            final(self).list_menu.items == old(self).list_menu.items,
            final(self).list_menu.title == old(self).list_menu.title,
            final(self).list_menu.area == old(self).list_menu.area,
            final(self).area == old(self).area,
    {
        self.is_open = true;
        self.list_menu.reset_state();
    }

    /// Closes the menu; it then receives no dispatched events and is not
    /// drawn.
    pub fn close(&mut self)
        ensures
            !final(self).is_open,
            final(self).list_menu == old(self).list_menu,
            final(self).area == old(self).area,
    {
        self.is_open = false;
    }

    /// Whether the menu is open.
    pub fn is_open(&self) -> (r: bool)
        ensures
            r == self.is_open,
    {
        self.is_open
    }

    /// The screen area the overlay renders into, within `outer_area`.
    pub fn calculate_inner_area(&self, outer_area: Rect) -> (r: Rect)
        ensures
            r == spec_inner_area(outer_area),
    {
        let width: u16 = if outer_area.width >= 100 {
            outer_area.width - 100
        } else {
            0
        };
        let remaining_height: u16 = if outer_area.height >= 20 {
            outer_area.height - 20
        } else {
            0
        };
        Rect {
            x: outer_area.x.saturating_add(50),
            y: outer_area.y.saturating_add(10),
            width,
            height: remaining_height / 10,
        }
    }

    /// Records the screen area the overlay was drawn into, for hit
    /// testing; the list menu fills the same area.
    pub fn set_area(&mut self, area: Rect)
        ensures
            final(self).area == area,
            final(self).list_menu.area == area,
            final(self).is_open == old(self).is_open,
            final(self).list_menu.title == old(self).list_menu.title,
            final(self).list_menu.items == old(self).list_menu.items,
            final(self).list_menu.selected == old(self).list_menu.selected,
    {
        self.area = area;
        self.list_menu.set_area(area);
    }

    /// Dispatches a key event: the list menu is always the focused
    /// child; the main menu itself has no own key handler, so a miss
    /// bubbles to the owner. A requested "resume" closes the menu here;
    /// a requested exit is returned as the second component.
    pub fn submit_key_event(&mut self, key_event: &KeyEvent) -> (r: (bool, bool))
        requires
            old(self).wf(),
        ensures
            final(self).wf(),
            r.0 == old(self).list_menu.key_handled(*key_event),
            r.1 == (old(self).list_menu.key_action(*key_event) == Some(MenuAction::Exit)),
            final(self).is_open == (if old(self).list_menu.key_action(*key_event) == Some(
                MenuAction::Resume,
            ) {
                false
            } else {
                old(self).is_open
            }),
            final(self).list_menu.selected == old(self).list_menu.selected_after_key(*key_event),
            final(self).list_menu.items == old(self).list_menu.items,
            final(self).list_menu.title == old(self).list_menu.title,
            final(self).list_menu.area == old(self).list_menu.area,
            final(self).area == old(self).area,
    {
        let (handled, action) = self.list_menu.handle_key_event(key_event);
        let mut exit = false;
        match action {
            Some(MenuAction::Resume) => self.is_open = false,
            Some(MenuAction::Exit) => exit = true,
            None => {},
        }
        (handled, exit)
    }

    /// Dispatches a mouse event: the list menu is the hit-tested focused
    /// child while the pointer is inside the area; on a miss the menu's
    /// own handler closes it on a left click outside, swallowing the
    /// click. A requested "resume" closes the menu here; a requested
    /// exit is returned as the second component.
    pub fn submit_mouse_event(&mut self, mouse_event: &MouseEvent) -> (r: (bool, bool))
        requires
            old(self).wf(),
        ensures
            final(self).wf(),
            r.0 == (old(self).child_mouse_handled(*mouse_event) || old(self).own_mouse_handled(
                *mouse_event,
            )),
            r.0 == crate::dispatch::subtree_handled(old(self).mouse_chain(*mouse_event), 0),
            r.1 == (old(self).mouse_inside(*mouse_event) && old(self).list_menu.mouse_action(
                *mouse_event,
            ) == Some(MenuAction::Exit)),
            final(self).is_open == (if (old(self).mouse_inside(*mouse_event) && old(
                self,
            ).list_menu.mouse_action(*mouse_event) == Some(MenuAction::Resume)) || (!old(
                self,
            ).mouse_inside(*mouse_event) && mouse_event.kind == MouseEventKind::LeftDown) {
                false
            } else {
                old(self).is_open
            }),
            final(self).list_menu.selected == (if old(self).mouse_inside(*mouse_event) {
                old(self).list_menu.selected_after_mouse(*mouse_event)
            } else {
                old(self).list_menu.selected
            }),
            final(self).list_menu.items == old(self).list_menu.items,
            final(self).list_menu.title == old(self).list_menu.title,
            final(self).list_menu.area == old(self).list_menu.area,
            final(self).area == old(self).area,
    {
        proof {
            let ev = *mouse_event;
            let own = old(self).own_mouse_handled(ev);
            if old(self).mouse_inside(ev) {
                let list = old(self).list_menu.mouse_handled(ev);
                assert(old(self).mouse_chain(ev) =~= seq![own] + seq![list]);
                crate::dispatch::lemma_subtree_handled_cons(own, seq![list]);
                crate::dispatch::lemma_subtree_handled_single(list);
            } else {
                assert(old(self).mouse_chain(ev) =~= seq![own]);
                crate::dispatch::lemma_subtree_handled_single(own);
            }
        }
        let inside = is_inside(mouse_event, self.area);
        let mut handled = false;
        let mut exit = false;

        // Forward the event to the hit-tested child first.
        if inside {
            let (child_handled, action) = self.list_menu.handle_mouse_event(mouse_event);
            handled = child_handled;
            match action {
                Some(MenuAction::Resume) => self.is_open = false,
                Some(MenuAction::Exit) => exit = true,
                None => {},
            }
        }

        // The child left the event unconsumed: one attempt for the
        // menu's own handler.
        if !handled && mouse_event.kind == MouseEventKind::LeftDown && !inside {
            self.close();
            handled = true;
        }
        (handled, exit)
    }
}

} // verus!
