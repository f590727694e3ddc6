//! The resolver's output value: a window reference paired with a 2D
//! coordinate, plus the coordinate type itself.

use vstd::prelude::*;
use vstd::string::StringExecFns;

use crate::decimal::i64_decimal;
use crate::decimal::spec_decimal_digits;
use crate::decimal::spec_int_digits;
use crate::decimal::u64_decimal;

verus! {

/// A 2D coordinate or extent, in whole device-independent units.
///
/// Window-local pixel space has its origin at the top-left corner with y
/// increasing downward; UI space shares the origin and scale but flips y
/// against the window's logical height.
#[derive(Clone, Copy, Debug, PartialEq, Eq, Structural)]
pub struct Vec2 {
    pub x: i64,
    pub y: i64,
}

/// Identifies a window: either the singular primary window, or a specific
/// window by its stable identifier. Equality is structural.
#[derive(Clone, Copy, Debug, PartialEq, Eq, Structural)]
pub enum WindowRef {
    /// The application's designated main window, referenced structurally.
    Primary,
    /// A window referenced by its stable identifier.
    Entity(u64),
}

/// A resolved cursor position: the window the pointer is over and the
/// pointer's coordinate in that window's space.
///
/// Produced fresh by every query; it is a plain value with no ownership
/// relation to the window it was derived from.
#[derive(Clone, Copy, Debug, PartialEq, Eq, Structural)]
pub struct CursorPosition {
    pub window_ref: WindowRef,
    pub position: Vec2,
}

impl CursorPosition {
    /// The window that the cursor is positioned above.
    pub fn window(&self) -> (r: WindowRef)
        ensures
            r == self.window_ref,
    {
        self.window_ref
    }

    /// The cursor's position.
    pub fn position(&self) -> (r: Vec2)
        ensures
            r == self.position,
    {
        self.position
    }

    /// The textual form of this value, naming the window it belongs to.
    pub fn display_string(&self) -> (s: String)
        ensures
            s@ == spec_display_string(*self),
    {
        match self.window_ref {
            WindowRef::Primary => {
                let mut s = String::from_str("cursor position: ");
                let xs = i64_decimal(self.position.x);
                s.append(xs.as_str());
                s.append(",");
                let ys = i64_decimal(self.position.y);
                s.append(ys.as_str());
                s.append(" (Primary Window)");
                s
            },
            WindowRef::Entity(id) => {
                let mut s = String::from_str("cursor_position: ");
                let xs = i64_decimal(self.position.x);
                s.append(xs.as_str());
                s.append(",");
                let ys = i64_decimal(self.position.y);
                s.append(ys.as_str());
                s.append(" (Window: ");
                let ids = u64_decimal(id);
                s.append(ids.as_str());
                s.append(")");
                s
            },
        }
    }
}

/// What `display_string` renders: the coordinate in decimal, framed by a
/// note on whether it lies in the primary window or in the window with the
/// given identifier.
pub open spec fn spec_display_string(c: CursorPosition) -> Seq<char> {
    match c.window_ref {
        WindowRef::Primary => "cursor position: "@ + spec_int_digits(c.position.x as int) + ","@
            + spec_int_digits(c.position.y as int) + " (Primary Window)"@,
        WindowRef::Entity(id) => "cursor_position: "@ + spec_int_digits(c.position.x as int)
            + ","@ + spec_int_digits(c.position.y as int) + " (Window: "@ + spec_decimal_digits(
            id as nat,
        ) + ")"@,
    }
}

impl From<CursorPosition> for Vec2 {
    /// Extracts the bare coordinate, dropping the window tag.
    fn from(value: CursorPosition) -> (r: Vec2)
        ensures
            r == value.position,
    {
        value.position
    }
}

impl vstd::std_specs::convert::FromSpecImpl<CursorPosition> for Vec2 {
    open spec fn obeys_from_spec() -> bool {
        true
    }

    open spec fn from_spec(v: CursorPosition) -> Vec2 {
        v.position
    }
}

} // verus!
