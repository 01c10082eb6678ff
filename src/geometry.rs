use vstd::prelude::*;

verus! {

/// A point of the drawing surface, in whole pixels.
#[derive(Clone, Copy, Debug, PartialEq, Eq, Structural)]
pub struct Point {
    pub x: i32,
    pub y: i32,
}

impl Point {
    pub fn new(x: i32, y: i32) -> (r: Point)
        ensures
            r.x == x,
            r.y == y,
    {
        Point { x, y }
    }
}

/// A flat drawing color.
#[derive(Clone, Copy, Debug, PartialEq, Eq, Structural)]
pub struct Color {
    pub r: u8,
    pub g: u8,
    pub b: u8,
}

impl Color {
    pub fn rgb(r: u8, g: u8, b: u8) -> (c: Color)
        ensures
            c == (Color { r, g, b }),
    {
        Color { r, g, b }
    }

    pub fn white() -> (c: Color)
        ensures
            c == (Color { r: 255, g: 255, b: 255 }),
    {
        Color { r: 255, g: 255, b: 255 }
    }

    pub fn black() -> (c: Color)
        ensures
            c == (Color { r: 0, g: 0, b: 0 }),
    {
        Color { r: 0, g: 0, b: 0 }
    }

    pub fn red() -> (c: Color)
        ensures
            c == (Color { r: 255, g: 0, b: 0 }),
    {
        Color { r: 255, g: 0, b: 0 }
    }

    pub fn blue() -> (c: Color)
        ensures
            c == (Color { r: 0, g: 0, b: 255 }),
    {
        Color { r: 0, g: 0, b: 255 }
    }
}

/// An axis-aligned rectangle: its top-left corner and its size.
#[derive(Clone, Copy, Debug, PartialEq, Eq, Structural)]
pub struct Rect {
    pub x: i32,
    pub y: i32,
    pub w: u32,
    pub h: u32,
}

/// A directed segment between two points.
#[derive(Clone, Copy, Debug, PartialEq, Eq, Structural)]
pub struct Line {
    pub start: Point,
    pub end: Point,
}

impl Line {
    pub open spec fn dx(self) -> int {
        self.end.x - self.start.x
    }

    pub open spec fn dy(self) -> int {
        self.end.y - self.start.y
    }

    pub open spec fn new_spec(x0: i32, y0: i32, x1: i32, y1: i32) -> Line {
        Line { start: Point { x: x0, y: y0 }, end: Point { x: x1, y: y1 } }
    }

    pub fn new(x0: i32, y0: i32, x1: i32, y1: i32) -> (l: Line)
        ensures
            l == Line::new_spec(x0, y0, x1, y1),
    {
        Line { start: Point::new(x0, y0), end: Point::new(x1, y1) }
    }

    pub fn get_points(&self) -> (r: (Point, Point))
        ensures
            r == (self.start, self.end),
    {
        (self.start, self.end)
    }

    /// The horizontal and vertical extent of the segment, end minus start.
    pub fn delta(&self) -> (r: (i64, i64))
        ensures
            r.0 == self.dx(),
            r.1 == self.dy(),
    {
        (self.end.x as i64 - self.start.x as i64, self.end.y as i64 - self.start.y as i64)
    }

    /// Whether the direction angle of the segment takes a half turn on top of
    /// the arc tangent of its slope: exactly when it runs toward smaller x.
    pub fn needs_half_turn(&self) -> (r: bool)
        ensures
            r == (self.dx() < 0),
    {
        self.end.x < self.start.x
    }
}

} // verus!
