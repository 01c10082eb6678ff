use vstd::prelude::*;

use crate::geometry::{Point, Rect};
use crate::trail::{after_add, Trail};
use crate::vector::Vector;

verus! {

/// Default draw and collision size of a particle.
pub const DEFAULT_SIZE: u32 = 14;

/// What a particle shows on screen and keeps between frames: its drawable
/// position, its velocity and acceleration arrows, its size, its trail and
/// the bounds of the scene it moves in.
pub struct Sprite {
    pub pos: Point,
    pub vel: Vector,
    pub acc: Vector,
    pub size: u32,
    pub trail: Trail,
    pub graph_position: bool,
    pub scene_width: u32,
    pub scene_height: u32,
}

impl Sprite {
    /// Half the size fits inside both scene bounds, and the trail is bounded.
    pub open spec fn wf(&self) -> bool {
        &&& self.size / 2 <= self.scene_width
        &&& self.size / 2 <= self.scene_height
        &&& self.trail.wf()
    }

    pub fn new(
        pos: Point,
        vel: Vector,
        acc: Vector,
        size: u32,
        graph_position: bool,
        scene_width: u32,
        scene_height: u32,
    ) -> (s: Sprite)
        requires
            size / 2 <= scene_width,
            size / 2 <= scene_height,
        ensures
            s.wf(),
            s.pos == pos,
            s.vel == vel,
            s.acc == acc,
            s.size == size,
            s.graph_position == graph_position,
            s.scene_width == scene_width,
            s.scene_height == scene_height,
            s.trail@ == Seq::<Point>::empty(),
    {
        Sprite {
            pos,
            vel,
            acc,
            size,
            trail: Trail::new(),
            graph_position,
            scene_width,
            scene_height,
        }
    }

    pub fn get_size(&self) -> (r: u32)
        ensures
            r == self.size,
    {
        self.size
    }

    /// The largest x a particle may reach before it bounces off the right edge.
    pub fn x_limit(&self) -> (r: u32)
        requires
            self.wf(),
        ensures
            r == self.scene_width - self.size / 2,
    {
        self.scene_width - self.size / 2
    }

    /// The largest y a particle may reach before it bounces off the bottom edge.
    pub fn y_limit(&self) -> (r: u32)
        requires
            self.wf(),
        ensures
            r == self.scene_height - self.size / 2,
    {
        self.scene_height - self.size / 2
    }

    /// Whether a particle at `distance` (whole units) from the center of
    /// attraction is absorbed by it: exactly when the distance is under its size.
    pub fn absorbs(&self, distance: u32) -> (r: bool)
        ensures
            r == (distance < self.size),
    {
        distance < self.size
    }

    /// Replaces the drawable position and the two arrows after a step.
    pub fn set_motion(&mut self, pos: Point, vel: Vector, acc: Vector)
        ensures
            final(self).pos == pos,
            final(self).vel == vel,
            final(self).acc == acc,
            final(self).size == old(self).size,
            final(self).trail@ == old(self).trail@,
            final(self).trail.wf() == old(self).trail.wf(),
            final(self).graph_position == old(self).graph_position,
            final(self).scene_width == old(self).scene_width,
            final(self).scene_height == old(self).scene_height,
    {
        self.pos = pos;
        self.vel = vel;
        self.acc = acc;
    }

    /// Records the drawable position on the trail when trail recording is on.
    pub fn add_to_trail(&mut self)
        requires
            old(self).wf(),
        ensures
            final(self).wf(),
            final(self).trail@ == if old(self).graph_position {
                after_add(old(self).trail@, old(self).pos)
            } else {
                old(self).trail@
            },
            final(self).pos == old(self).pos,
            final(self).vel == old(self).vel,
            final(self).acc == old(self).acc,
            final(self).size == old(self).size,
            final(self).graph_position == old(self).graph_position,
            final(self).scene_width == old(self).scene_width,
            final(self).scene_height == old(self).scene_height,
    {
        if self.graph_position {
            let p = self.pos;
            self.trail.add(p);
        }
    }

    /// The points of the trail line to draw, oldest first: none when trail
    /// recording is off.
    pub fn trail_points(&self) -> (r: Vec<Point>)
        ensures
            r@ == if self.graph_position {
                self.trail@
            } else {
                Seq::<Point>::empty()
            },
    {
        if self.graph_position {
            self.trail.points()
        } else {
            Vec::new()
        }
    }

    /// The outline square of the particle, `size` wide and centered on the
    /// drawable position; `None` when its corner falls outside the `i32` range.
    pub fn outline(&self) -> (r: Option<Rect>)
        ensures
            r == if self.pos.x - self.size / 2 >= i32::MIN && self.pos.y - self.size / 2 >= i32::MIN {
                Some(
                    Rect {
                        x: (self.pos.x - self.size / 2) as i32,
                        y: (self.pos.y - self.size / 2) as i32,
                        w: self.size,
                        h: self.size,
                    },
                )
            } else {
                None::<Rect>
            },
    {
        let half: i64 = (self.size / 2) as i64;
        let x: i64 = self.pos.x as i64 - half;
        let y: i64 = self.pos.y as i64 - half;
        if x >= i32::MIN as i64 && y >= i32::MIN as i64 {
            Some(Rect { x: x as i32, y: y as i32, w: self.size, h: self.size })
        } else {
            None
        }
    }
}

} // verus!
