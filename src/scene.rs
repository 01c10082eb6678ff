use vstd::prelude::*;

verus! {

/// Integration substeps that the simulation worker runs per frame.
pub const SUBSTEPS: u32 = 16;

/// What the simulation worker does with the scene of one frame.
#[derive(Clone, Copy, Debug, PartialEq, Eq, Structural)]
pub struct FramePlan {
    /// Integration substeps to run.
    pub substeps: u32,
    /// Whether each remaining particle records its position afterwards.
    pub record_trail: bool,
}

/// The worker's plan for a frame: a paused scene is handed back untouched,
/// otherwise it runs every substep and then records the trails.
pub fn plan_frame(pause: bool) -> (p: FramePlan)
    ensures
        p.substeps == (if pause { 0 } else { SUBSTEPS }),
        p.record_trail == !pause,
{
    if pause {
        FramePlan { substeps: 0, record_trail: false }
    } else {
        FramePlan { substeps: SUBSTEPS, record_trail: true }
    }
}

/// The items of `s` whose mark in `marks` is false, in their order.
pub open spec fn kept<T>(s: Seq<T>, marks: Seq<bool>) -> Seq<T>
    decreases s.len(),
{
    if s.len() == 0 {
        Seq::empty()
    } else {
        let rest = kept(s.drop_first(), marks.drop_first());
        if marks[0] {
            rest
        } else {
            seq![s[0]].add(rest)
        }
    }
}

/// Removes from `scene` every item whose mark is set, keeping the order of
/// the others.
pub fn remove_marked<T>(scene: &mut Vec<T>, marks: &Vec<bool>)
    requires
        marks@.len() == old(scene)@.len(),
    ensures
        final(scene)@ == kept(old(scene)@, marks@),
{
    let ghost s0 = scene@;
    let ghost n = s0.len();
    let mut i: usize = scene.len();
    assert(s0.subrange(n as int, n as int) =~= Seq::<T>::empty());
    assert(s0.subrange(0, n as int) =~= s0);
    while i > 0
        invariant
            i <= n,
            n == s0.len(),
            marks@.len() == n,
            scene@ == s0.subrange(0, i as int).add(
                kept(s0.subrange(i as int, n as int), marks@.subrange(i as int, n as int)),
            ),
        decreases i,
    {
        let j: usize = i - 1;
        let ghost tail = kept(s0.subrange(i as int, n as int), marks@.subrange(i as int, n as int));
        assert(s0.subrange(j as int, n as int).drop_first() =~= s0.subrange(i as int, n as int));
        assert(marks@.subrange(j as int, n as int).drop_first() =~= marks@.subrange(i as int, n as int));
        if marks[j] {
            scene.remove(j);
            assert(scene@ =~= s0.subrange(0, j as int).add(tail));
        } else {
            assert(scene@ =~= s0.subrange(0, j as int).add(seq![s0[j as int]].add(tail)));
        }
        i = j;
    }
    assert(s0.subrange(0, n as int) =~= s0);
    assert(marks@.subrange(0, n as int) =~= marks@);
    assert(scene@ =~= kept(s0, marks@));
}

/// How many of `marks` are unset.
pub open spec fn unmarked_count(marks: Seq<bool>) -> nat
    decreases marks.len(),
{
    if marks.len() == 0 {
        0
    } else {
        unmarked_count(marks.drop_first()) + if marks[0] { 0nat } else { 1nat }
    }
}

/// After the compaction of a substep, every item left was unmarked in the
/// scene it came from, and exactly the unmarked items are left: a particle
/// marked as absorbed by the center is gone from the scene.
pub proof fn lemma_marked_are_removed<T>(s: Seq<T>, marks: Seq<bool>)
    requires
        marks.len() == s.len(),
    ensures
        kept(s, marks).len() == unmarked_count(marks),
        forall|k: int|
            0 <= k < kept(s, marks).len() ==> exists|i: int|
                0 <= i < s.len() && !marks[i] && #[trigger] kept(s, marks)[k] == s[i],
    decreases s.len(),
{
    if s.len() > 0 {
        let s1 = s.drop_first();
        let m1 = marks.drop_first();
        lemma_marked_are_removed(s1, m1);
        let r = kept(s, marks);
        let r1 = kept(s1, m1);
        assert forall|k: int| 0 <= k < r.len() implies exists|i: int|
            0 <= i < s.len() && !marks[i] && #[trigger] r[k] == s[i] by {
            if marks[0] {
                let i1 = choose|i1: int| 0 <= i1 < s1.len() && !m1[i1] && r1[k] == s1[i1];
                assert(!marks[i1 + 1] && r[k] == s[i1 + 1]);
            } else if k == 0 {
                assert(!marks[0] && r[k] == s[0]);
            } else {
                let i1 = choose|i1: int| 0 <= i1 < s1.len() && !m1[i1] && r1[k - 1] == s1[i1];
                assert(!marks[i1 + 1] && r[k] == s[i1 + 1]);
            }
        }
    }
}

} // verus!
