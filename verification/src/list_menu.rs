//! A selectable list of actions with keyboard and pointer control.
//!
//! Up and Down move a circular selection; Enter or Space activates the
//! selected item; each item may also declare a hotkey that activates it
//! regardless of the selection. A left click activates the item under
//! the pointer; pointer movement moves the selection to it.

use vstd::prelude::*;

use crate::input::{KeyCode, KeyEvent, MouseEvent, MouseEventKind, Rect};

verus! {

/// The actions a list-menu item can request of the menu's owner.
#[derive(Debug, PartialEq, Eq, Structural, Copy, Clone)]
pub enum MenuAction {
    /// Close the menu and return to the game.
    Resume,
    /// Ask the application to exit.
    Exit,
}

/// One entry of a list menu: its label, its hotkey, and the action its
/// activation requests.
#[derive(Debug, PartialEq)]
pub struct ListMenuItem {
    pub title: String,
    pub hotkey: KeyCode,
    pub action: MenuAction,
}

/// The circular predecessor of the selection among `len` items: no
/// selection starts at the top, and moving above the top wraps to the
/// bottom.
pub open spec fn select_up(selected: Option<usize>, len: nat) -> Option<usize> {
    match selected {
        None => Some(0usize),
        Some(i) => if i == 0 {
            Some((len - 1) as usize)
        } else {
            Some((i - 1) as usize)
        },
    }
}

/// The circular successor of the selection among `len` items: no
/// selection starts at the top, and moving below the bottom wraps to the
/// top.
pub open spec fn select_down(selected: Option<usize>, len: nat) -> Option<usize> {
    match selected {
        None => Some(0usize),
        Some(i) => if i + 1 >= len {
            Some(0usize)
        } else {
            Some((i + 1) as usize)
        },
    }
}

/// The first index at or after `i` whose item declares `code` as its
/// hotkey, if any.
pub open spec fn hotkey_index_from(items: Seq<ListMenuItem>, code: KeyCode, i: int) -> Option<int>
    decreases items.len() - i,
{
    if i < 0 || i >= items.len() {
        None
    } else if items[i].hotkey == code {
        Some(i)
    } else {
        hotkey_index_from(items, code, i + 1)
    }
}

/// The first index whose item declares `code` as its hotkey, if any.
pub open spec fn hotkey_index(items: Seq<ListMenuItem>, code: KeyCode) -> Option<int> {
    hotkey_index_from(items, code, 0)
}

/// A titled menu of items, with a circular selection and the screen area
/// it was last drawn into (used for hit testing).
#[derive(Debug, PartialEq)]
pub struct ListMenu {
    pub title: String,
    pub selected: Option<usize>,
    pub items: Vec<ListMenuItem>,
    pub area: Rect,
}

impl ListMenu {
    /// The menu is never empty and the selection, when present, names an
    /// existing item. A selection outside the items is a caller bug and
    /// fails fast rather than being absorbed.
    pub open spec fn wf(&self) -> bool {
        &&& self.items@.len() > 0
        &&& self.selected matches Some(i) ==> i < self.items@.len()
    }

    /// The screen row of the first item: the row below the top border.
    pub open spec fn first_item_row(&self) -> int {
        self.area.y + 1
    }

    /// Whether the menu's own key handler consumes `ev`: the navigation
    /// and activation keys always, and otherwise any declared hotkey.
    pub open spec fn key_handled(&self, ev: KeyEvent) -> bool {
        if ev.code == KeyCode::Up || ev.code == KeyCode::Down || ev.code == KeyCode::Enter
            || ev.code == KeyCode::Char(' ') {
            true
        } else {
            hotkey_index(self.items@, ev.code) is Some
        }
    }

    /// The selection after the menu's own key handler ran on `ev`.
    pub open spec fn selected_after_key(&self, ev: KeyEvent) -> Option<usize> {
        if ev.code == KeyCode::Up {
            select_up(self.selected, self.items@.len())
        } else if ev.code == KeyCode::Down {
            select_down(self.selected, self.items@.len())
        } else {
            self.selected
        }
    }

    /// The action that the menu's own key handler requests on `ev`:
    /// Enter or Space activates the selected item, any other key the
    /// first item declaring it as its hotkey.
    pub open spec fn key_action(&self, ev: KeyEvent) -> Option<MenuAction> {
        if ev.code == KeyCode::Up || ev.code == KeyCode::Down {
            None
        } else if ev.code == KeyCode::Enter || ev.code == KeyCode::Char(' ') {
            match self.selected {
                Some(i) => Some(self.items@[i as int].action),
                None => None,
            }
        } else {
            match hotkey_index(self.items@, ev.code) {
                Some(i) => Some(self.items@[i].action),
                None => None,
            }
        }
    }

    /// Whether the menu's own mouse handler consumes `ev`: clicks and
    /// movement always, everything else never.
    pub open spec fn mouse_handled(&self, ev: MouseEvent) -> bool {
        ev.kind == MouseEventKind::LeftDown || ev.kind == MouseEventKind::Moved
    }

    /// The selection after the menu's own mouse handler ran on `ev`:
    /// movement over the items moves the selection to the pointed item,
    /// clamped to the last one.
    pub open spec fn selected_after_mouse(&self, ev: MouseEvent) -> Option<usize> {
        if ev.kind == MouseEventKind::Moved && ev.row >= self.first_item_row() {
            let index = ev.row - self.first_item_row();
            if index >= self.items@.len() {
                Some((self.items@.len() - 1) as usize)
            } else {
                Some(index as usize)
            }
        } else {
            self.selected
        }
    }

    /// The action that the menu's own mouse handler requests on `ev`: a
    /// left click on an item activates it.
    pub open spec fn mouse_action(&self, ev: MouseEvent) -> Option<MenuAction> {
        if ev.kind == MouseEventKind::LeftDown && ev.row >= self.first_item_row() && ev.row
            - self.first_item_row() < self.items@.len() {
            Some(self.items@[ev.row - self.first_item_row()].action)
        } else {
            None
        }
    }

    /// A menu over `items`, with nothing selected yet and no area.
    pub fn new(title: String, items: Vec<ListMenuItem>) -> (r: ListMenu)
        requires
            items@.len() > 0,
        ensures
            r.wf(),
            r.title == title,
            r.items == items,
            r.selected is None,
            r.area == (Rect { x: 0u16, y: 0u16, width: 0u16, height: 0u16 }),
    {
        ListMenu { title, selected: None, items, area: Rect::zero() }
    }

    /// Moves the selection back to the first item.
    pub fn reset_state(&mut self)
        requires
            old(self).wf(),
        ensures
            final(self).wf(),
            final(self).selected == Some(0usize),
            final(self).title == old(self).title,
            final(self).items == old(self).items,
            final(self).area == old(self).area,
    {
        self.selected = Some(0);
    }

    /// Records the screen area the menu was drawn into, for hit testing.
    pub fn set_area(&mut self, area: Rect)
        ensures
            final(self).area == area,
            final(self).title == old(self).title,
            final(self).items == old(self).items,
            final(self).selected == old(self).selected,
    {
        self.area = area;
    }

    /// The menu's own key handler: Up and Down move the circular
    /// selection, Enter and Space activate the selected item, and any
    /// other key activates the first item declaring it as a hotkey.
    /// Returns whether the event was consumed and the requested action.
    pub fn handle_key_event(&mut self, key_event: &KeyEvent) -> (r: (bool, Option<MenuAction>))
        requires
            old(self).wf(),
        ensures
            final(self).wf(),
            final(self).title == old(self).title,
            final(self).items == old(self).items,
            final(self).area == old(self).area,
            final(self).selected == old(self).selected_after_key(*key_event),
            r.0 == old(self).key_handled(*key_event),
            r.1 == old(self).key_action(*key_event),
    {
        match key_event.code {
            KeyCode::Up => {
                let new_idx: usize = match self.selected {
                    Some(current_idx) => if current_idx == 0 {
                        self.items.len() - 1
                    } else {
                        current_idx - 1
                    },
                    None => 0,
                };
                self.selected = Some(new_idx);
                (true, None)
            },
            KeyCode::Down => {
                let new_idx: usize = match self.selected {
                    Some(current_idx) => if current_idx >= self.items.len() - 1 {
                        0
                    } else {
                        current_idx + 1
                    },
                    None => 0,
                };
                self.selected = Some(new_idx);
                (true, None)
            },
            KeyCode::Enter => (true, self.activate_selected()),
            KeyCode::Char(c) => if c == ' ' {
                (true, self.activate_selected())
            } else {
                self.activate_hotkey(key_event)
            },
            _ => self.activate_hotkey(key_event),
        }
    }

    /// The menu's own mouse handler: a left click on an item activates
    /// it, pointer movement moves the selection to the pointed item.
    /// Returns whether the event was consumed and the requested action.
    pub fn handle_mouse_event(&mut self, mouse_event: &MouseEvent) -> (r: (bool, Option<MenuAction>))
        requires
            old(self).wf(),
        ensures
            final(self).wf(),
            final(self).title == old(self).title,
            final(self).items == old(self).items,
            final(self).area == old(self).area,
            final(self).selected == old(self).selected_after_mouse(*mouse_event),
            r.0 == old(self).mouse_handled(*mouse_event),
            r.1 == old(self).mouse_action(*mouse_event),
    {
        let first_item_row: usize = self.area.y as usize + 1;
        match mouse_event.kind {
            MouseEventKind::LeftDown => {
                let mut action: Option<MenuAction> = None;
                if mouse_event.row as usize >= first_item_row {
                    let index = mouse_event.row as usize - first_item_row;
                    if index < self.items.len() {
                        action = Some(self.items[index].action);
                    }
                }
                (true, action)
            },
            MouseEventKind::Moved => {
                if mouse_event.row as usize >= first_item_row {
                    let index = mouse_event.row as usize - first_item_row;
                    let clamped: usize = if index >= self.items.len() {
                        self.items.len() - 1
                    } else {
                        index
                    };
                    self.selected = Some(clamped);
                }
                (true, None)
            },
            MouseEventKind::Other => (false, None),
        }
    }

    /// The action of the selected item, if an item is selected.
    fn activate_selected(&self) -> (r: Option<MenuAction>)
        requires
            self.wf(),
        ensures
            r == (match self.selected {
                Some(i) => Some(self.items@[i as int].action),
                None => None::<MenuAction>,
            }),
    {
        match self.selected {
            Some(current_idx) => Some(self.items[current_idx].action),
            None => None,
        }
    }

    /// The action of the first item declaring the event's key as its
    /// hotkey, with whether any item did.
    fn activate_hotkey(&self, key_event: &KeyEvent) -> (r: (bool, Option<MenuAction>))
        ensures
            r == (match hotkey_index(self.items@, key_event.code) {
                Some(i) => (true, Some(self.items@[i].action)),
                None => (false, None::<MenuAction>),
            }),
    {
        let mut i: usize = 0;
        while i < self.items.len()
            invariant
                i <= self.items@.len(),
                hotkey_index(self.items@, key_event.code) == hotkey_index_from(
                    self.items@,
                    key_event.code,
                    i as int,
                ),
            decreases self.items@.len() - i,
        {
            if self.items[i].hotkey == key_event.code {
                return (true, Some(self.items[i].action));
            }
            i = i + 1;
        }
        (false, None)
    }
}

} // verus!
