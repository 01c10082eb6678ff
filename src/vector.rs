use vstd::prelude::*;

use crate::geometry::{Color, Line, Point};

verus! {

/// An arrow: a center segment and two short head segments that leave from
/// the center's end point, drawn in one color.
#[derive(Clone, Copy, Debug)]
pub struct Vector {
    pub center: Line,
    pub arrow: [Line; 2],
    pub color: Color,
}

impl Vector {
    /// The arrow from (x0, y0) to (x1, y1) whose head segments end at `tip0`
    /// and `tip1`.
    pub fn with_tips(x0: i32, y0: i32, x1: i32, y1: i32, tip0: Point, tip1: Point, color: Color) -> (v: Vector)
        ensures
            v.center == Line::new_spec(x0, y0, x1, y1),
            v.arrow[0] == (Line { start: v.center.end, end: tip0 }),
            v.arrow[1] == (Line { start: v.center.end, end: tip1 }),
            v.color == color,
    {
        let center = Line::new(x0, y0, x1, y1);
        let end = center.end;
        let arrow = [Line { start: end, end: tip0 }, Line { start: end, end: tip1 }];
        Vector { center, arrow, color }
    }

    /// The segments to draw, in order: the center, then the two head segments.
    pub fn lines(&self) -> (r: [Line; 3])
        ensures
            r[0] == self.center,
            r[1] == self.arrow[0],
            r[2] == self.arrow[1],
    {
        [self.center, self.arrow[0], self.arrow[1]]
    }
}

} // verus!
