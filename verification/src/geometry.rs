//! Screen-space rectangles and the coordinate arithmetic behind region
//! selection and window hit-testing.

use vstd::prelude::*;

verus! {

/// A rectangle in screen coordinates: integer origin, unsigned extent.
#[derive(Clone, Copy, Debug, PartialEq, Eq, Structural)]
pub struct Rect {
    pub x: i32,
    pub y: i32,
    pub width: u32,
    pub height: u32,
}

/// Absolute difference of two coordinates.
pub open spec fn abs_diff(a: int, b: int) -> int {
    if a <= b {
        b - a
    } else {
        a - b
    }
}

/// The smaller of two coordinates.
pub open spec fn min_coord(a: int, b: int) -> int {
    if a <= b {
        a
    } else {
        b
    }
}

impl Rect {
    /// A selection result must never have a zero extent.
    pub open spec fn positive_area(self) -> bool {
        self.width > 0 && self.height > 0
    }

    /// Whether a point lies strictly inside this rectangle, the test the
    /// window picker runs against every candidate's bounding box.
    pub open spec fn spec_contains(self, px: int, py: int) -> bool {
        &&& px > self.x
        &&& px < self.x + self.width
        &&& py > self.y
        &&& py < self.y + self.height
    }

    /// Hit-test a point against this rectangle.
    pub fn contains(&self, px: i32, py: i32) -> (r: bool)
        ensures
            r == self.spec_contains(px as int, py as int),
    {
        let x64: i64 = self.x as i64;
        let y64: i64 = self.y as i64;
        let px64: i64 = px as i64;
        let py64: i64 = py as i64;
        px64 > x64 && px64 < x64 + (self.width as i64) && py64 > y64 && py64 < y64 + (
        self.height as i64)
    }
}

impl Default for Rect {
    /// The placeholder extent given to windows whose geometry has not been
    /// resolved yet.
    fn default() -> (r: Rect)
        ensures
            r == (Rect { x: 0, y: 0, width: 250, height: 250 }),
    {
        Rect { x: 0, y: 0, width: 250, height: 250 }
    }
}

/// The rectangle spanned by two opposite corner points: least coordinates
/// as the origin, absolute differences as the extent.
pub open spec fn spec_span_rect(x1: i32, y1: i32, x2: i32, y2: i32) -> Rect {
    Rect {
        x: if x1 <= x2 {
            x1
        } else {
            x2
        },
        y: if y1 <= y2 {
            y1
        } else {
            y2
        },
        width: abs_diff(x1 as int, x2 as int) as u32,
        height: abs_diff(y1 as int, y2 as int) as u32,
    }
}

/// The rectangle spanned by a drag from one corner point to another: least
/// coordinates as the origin, absolute differences as the extent.
pub fn rect_from_points(x1: i32, y1: i32, x2: i32, y2: i32) -> (r: Rect)
    ensures
        r == spec_span_rect(x1, y1, x2, y2),
        r.x == min_coord(x1 as int, x2 as int),
        r.y == min_coord(y1 as int, y2 as int),
        r.width == abs_diff(x1 as int, x2 as int),
        r.height == abs_diff(y1 as int, y2 as int),
{
    let dx: i64 = (x2 as i64) - (x1 as i64);
    let dy: i64 = (y2 as i64) - (y1 as i64);
    let width: u32 = if dx >= 0 {
        dx as u32
    } else {
        (-dx) as u32
    };
    let height: u32 = if dy >= 0 {
        dy as u32
    } else {
        (-dy) as u32
    };
    Rect {
        x: if x1 <= x2 {
            x1
        } else {
            x2
        },
        y: if y1 <= y2 {
            y1
        } else {
            y2
        },
        width,
        height,
    }
}

} // verus!
