use vstd::prelude::*;

use crate::geometry::Point;

verus! {

/// How many positions a trail keeps.
pub const MAX_SAVED_POINTS: usize = 100;

/// The stored points after `p` is recorded onto `s`: appended while there is
/// room, otherwise the oldest point is dropped first.
pub open spec fn after_add(s: Seq<Point>, p: Point) -> Seq<Point> {
    if s.len() < MAX_SAVED_POINTS {
        s.push(p)
    } else {
        s.drop_first().push(p)
    }
}

/// The stored points after recording each of `pts` in turn on an empty trail.
pub open spec fn replay(pts: Seq<Point>) -> Seq<Point>
    decreases pts.len(),
{
    if pts.len() == 0 {
        Seq::empty()
    } else {
        after_add(replay(pts.drop_last()), pts.last())
    }
}

/// The last `MAX_SAVED_POINTS` of `pts`, or all of them when there are fewer.
pub open spec fn newest(pts: Seq<Point>) -> Seq<Point> {
    if pts.len() <= MAX_SAVED_POINTS {
        pts
    } else {
        pts.subrange(pts.len() - MAX_SAVED_POINTS, pts.len() as int)
    }
}

/// A bounded record of recent positions, oldest first.
pub struct Trail {
    points: Vec<Point>,
}

impl View for Trail {
    type V = Seq<Point>;

    closed spec fn view(&self) -> Seq<Point> {
        self.points@
    }
}

impl Trail {
    pub open spec fn wf(&self) -> bool {
        self@.len() <= MAX_SAVED_POINTS
    }

    pub fn new() -> (t: Trail)
        ensures
            t.wf(),
            t@ == Seq::<Point>::empty(),
    {
        Trail { points: Vec::new() }
    }

    pub fn len(&self) -> (n: usize)
        ensures
            n == self@.len(),
    {
        self.points.len()
    }

    /// Records `p` as the newest point, dropping the oldest one when full.
    pub fn add(&mut self, p: Point)
        requires
            old(self).wf(),
        ensures
            final(self).wf(),
            final(self)@ == after_add(old(self)@, p),
    {
        if self.points.len() == MAX_SAVED_POINTS {
            self.points.remove(0);
        }
        self.points.push(p);
        proof {
            if old(self)@.len() == MAX_SAVED_POINTS {
                assert(self@ =~= old(self)@.drop_first().push(p));
            }
        }
    }

    /// The stored points, oldest first.
    pub fn points(&self) -> (r: Vec<Point>)
        ensures
            r@ == self@,
    {
        self.points.clone()
    }
}

/// A trail never holds more than `MAX_SAVED_POINTS` points, and after any run
/// of recordings on an empty trail it holds exactly the newest of them, in the
/// order in which they were recorded.
pub proof fn lemma_trail_keeps_newest(pts: Seq<Point>)
    ensures
        replay(pts) == newest(pts),
        replay(pts).len() <= MAX_SAVED_POINTS,
    decreases pts.len(),
{
    if pts.len() > 0 {
        let prev = pts.drop_last();
        lemma_trail_keeps_newest(prev);
        if prev.len() < MAX_SAVED_POINTS {
            assert(replay(pts) =~= newest(pts));
        } else {
            assert(replay(pts) =~= newest(pts));
        }
    } else {
        assert(replay(pts) =~= newest(pts));
    }
}

} // verus!
