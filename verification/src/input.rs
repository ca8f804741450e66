//! Plain input values: the key and mouse events that the dispatch tree
//! routes, and the rectangle used for hit testing.
//!
//! The surrounding application translates the terminal's own event types
//! into these before handing them to the user interface.

use vstd::prelude::*;

verus! {

/// The key of a key event, reduced to the keys the interface reads.
#[derive(Debug, PartialEq, Eq, Structural, Copy, Clone)]
pub enum KeyCode {
    Esc,
    Enter,
    Up,
    Down,
    Left,
    Right,
    Char(char),
    Other,
}

/// One keyboard event: the key and whether the control modifier alone
/// was held.
#[derive(Debug, PartialEq, Eq, Structural, Copy, Clone)]
pub struct KeyEvent {
    pub code: KeyCode,
    pub ctrl: bool,
}

/// The kind of a mouse event, reduced to the kinds the interface reads.
#[derive(Debug, PartialEq, Eq, Structural, Copy, Clone)]
pub enum MouseEventKind {
    /// The left button went down.
    LeftDown,
    /// The pointer moved.
    Moved,
    Other,
}

/// One mouse event: its kind and the pointer cell it concerns.
#[derive(Debug, PartialEq, Eq, Structural, Copy, Clone)]
pub struct MouseEvent {
    pub kind: MouseEventKind,
    pub column: u16,
    pub row: u16,
}

/// The sum of `a` and `b`, stopping at the top of the type.
pub open spec fn sat_add_u16(a: u16, b: u16) -> u16 {
    if a + b > u16::MAX {
        u16::MAX
    } else {
        (a + b) as u16
    }
}

/// A rectangle of terminal cells: its top-left corner, width and height.
#[derive(Debug, PartialEq, Eq, Structural, Copy, Clone)]
pub struct Rect {
    pub x: u16,
    pub y: u16,
    pub width: u16,
    pub height: u16,
}

impl Rect {
    /// The horizontal coordinate of the left edge.
    pub open spec fn spec_left(&self) -> u16 {
        self.x
    }

    /// The horizontal coordinate of the right edge.
    pub open spec fn spec_right(&self) -> u16 {
        sat_add_u16(self.x, self.width)
    }

    /// The vertical coordinate of the top edge.
    pub open spec fn spec_top(&self) -> u16 {
        self.y
    }

    /// The vertical coordinate of the bottom edge.
    pub open spec fn spec_bottom(&self) -> u16 {
        sat_add_u16(self.y, self.height)
    }

    /// A rectangle from its top-left corner, width and height.
    pub fn new(x: u16, y: u16, width: u16, height: u16) -> (r: Rect)
        ensures
            r == (Rect { x, y, width, height }),
    {
        Rect { x, y, width, height }
    }

    /// An empty rectangle at the origin.
    pub fn zero() -> (r: Rect)
        ensures
            r == (Rect { x: 0u16, y: 0u16, width: 0u16, height: 0u16 }),
    {
        Rect { x: 0, y: 0, width: 0, height: 0 }
    }

    /// The horizontal coordinate of the left edge.
    pub fn left(&self) -> (r: u16)
        ensures
            r == self.spec_left(),
    {
        self.x
    }

    /// The horizontal coordinate of the right edge.
    pub fn right(&self) -> (r: u16)
        ensures
            r == self.spec_right(),
    {
        self.x.saturating_add(self.width)
    }

    /// The vertical coordinate of the top edge.
    pub fn top(&self) -> (r: u16)
        ensures
            r == self.spec_top(),
    {
        self.y
    }

    /// The vertical coordinate of the bottom edge.
    pub fn bottom(&self) -> (r: u16)
        ensures
            r == self.spec_bottom(),
    {
        self.y.saturating_add(self.height)
    }
}

/// Whether the event's pointer cell lies within the rectangle, all four
/// boundary coordinates included.
pub open spec fn is_inside_spec(mouse_event: MouseEvent, rect: Rect) -> bool {
    &&& rect.spec_left() <= mouse_event.column <= rect.spec_right()
    &&& rect.spec_top() <= mouse_event.row <= rect.spec_bottom()
}

/// Whether the event's pointer cell lies within the rectangle, all four
/// boundary coordinates included.
pub fn is_inside(mouse_event: &MouseEvent, rect: Rect) -> (r: bool)
    ensures
        r == is_inside_spec(*mouse_event, rect),
{
    rect.left() <= mouse_event.column && mouse_event.column <= rect.right()
        && rect.bottom() >= mouse_event.row && mouse_event.row >= rect.top()
}

/// A pointer cell on any of a rectangle's four boundary edges counts as
/// inside it.
pub proof fn lemma_boundary_inside(mouse_event: MouseEvent, rect: Rect)
    requires
        ({
            ||| ((mouse_event.column == rect.spec_left() || mouse_event.column
                == rect.spec_right()) && rect.spec_top() <= mouse_event.row
                <= rect.spec_bottom())
            ||| ((mouse_event.row == rect.spec_top() || mouse_event.row == rect.spec_bottom())
                && rect.spec_left() <= mouse_event.column <= rect.spec_right())
        }),
    ensures
        is_inside_spec(mouse_event, rect),
{
}

} // verus!
