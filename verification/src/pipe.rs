//! Pipes on a part grid: a straight run, or two straight runs joined at one
//! bend, between a start cell and an end cell.

use vstd::prelude::*;
use crate::grid::{rotated_ccw_spec, IVec2, PartCoord};

verus! {

/// A pipe from `start` to `end`. When the two cells share neither their x
/// nor their y value, the pipe bends once; `x_first` says whether it first
/// runs along the x axis.
#[derive(Debug, Clone, Copy, PartialEq, Eq, Structural)]
pub struct PipeGeometry {
    pub start: PartCoord,
    pub end: PartCoord,
    pub x_first: bool,
}

/// The straight pieces a pipe is made of.
#[derive(Debug, Clone, Copy, PartialEq, Eq, Structural)]
pub enum PipeSegments {
    Single(PartCoord, PartCoord),
    Double(PartCoord, PartCoord, PartCoord),
}

/// Where a pipe from `from` to `to` bends; `None` when the two cells share
/// their x or their y value.
pub open spec fn bend_spec(from: PartCoord, to: PartCoord, x_first: bool) -> Option<PartCoord> {
    if from.0.x == to.0.x || from.0.y == to.0.y {
        None
    } else if x_first {
        Some(PartCoord(IVec2 { x: to.0.x, y: from.0.y }))
    } else {
        Some(PartCoord(IVec2 { x: from.0.x, y: to.0.y }))
    }
}

/// The pieces of a pipe.
pub open spec fn segments_spec(g: PipeGeometry) -> PipeSegments {
    match bend_spec(g.start, g.end, g.x_first) {
        Some(b) => PipeSegments::Double(g.start, b, g.end),
        None => PipeSegments::Single(g.start, g.end),
    }
}

/// Whether `v` lies between `a` and `b`, both included.
pub open spec fn between(a: int, b: int, v: int) -> bool {
    if a <= b {
        a <= v <= b
    } else {
        b <= v <= a
    }
}

/// The cells of a straight run from `s` to `e`: along y when the two share
/// their x value, else along x at the height of `s`.
pub open spec fn on_run(s: PartCoord, e: PartCoord, p: PartCoord) -> bool {
    if s.0.x == e.0.x {
        p.0.x == s.0.x && between(s.0.y as int, e.0.y as int, p.0.y as int)
    } else {
        p.0.y == s.0.y && between(s.0.x as int, e.0.x as int, p.0.x as int)
    }
}

/// The distance between `a` and `b`.
pub open spec fn span(a: int, b: int) -> nat {
    if a <= b { (b - a) as nat } else { (a - b) as nat }
}

/// The number of cells of the straight run from `s` to `e`.
pub open spec fn run_len(s: PartCoord, e: PartCoord) -> nat {
    if s.0.x == e.0.x {
        span(s.0.y as int, e.0.y as int) + 1
    } else {
        span(s.0.x as int, e.0.x as int) + 1
    }
}

/// The number of cells of a pipe: those of its runs, the bend counted once.
pub open spec fn pipe_len(g: PipeGeometry) -> nat {
    match segments_spec(g) {
        PipeSegments::Single(s, e) => run_len(s, e),
        PipeSegments::Double(s, c, e) => (run_len(s, c) + run_len(c, e) - 1) as nat,
    }
}

/// Whether the cell `p` is part of the pipe.
pub open spec fn pipe_contains_spec(g: PipeGeometry, p: PartCoord) -> bool {
    match segments_spec(g) {
        PipeSegments::Single(s, e) => on_run(s, e, p),
        PipeSegments::Double(s, c, e) => on_run(s, c, p) || on_run(c, e, p),
    }
}

/// The pipe after one counterclockwise quarter turn of the part it is on.
pub open spec fn rotated_pipe_spec(g: PipeGeometry) -> PipeGeometry {
    PipeGeometry {
        start: rotated_ccw_spec(g.start),
        end: rotated_ccw_spec(g.end),
        x_first: !g.x_first,
    }
}

/// Computes where the bend in a pipe is, based on its starting and ending
/// location. Pipes that begin and end on the same x- or y-value do not
/// bend, so this returns None. With `x_first`, the pipe from (0, 0) to
/// (1, 1) passes through (1, 0); without it, through (0, 1).
pub fn get_bend_location(from: PartCoord, to: PartCoord, x_first: bool) -> (r: Option<PartCoord>)
    ensures
        r == bend_spec(from, to, x_first),
{
    if from.0.x == to.0.x || from.0.y == to.0.y {
        return None;
    }
    if x_first {
        Some(PartCoord(IVec2 { x: to.0.x, y: from.0.y }))
    } else {
        Some(PartCoord(IVec2 { x: from.0.x, y: to.0.y }))
    }
}

/// The cells of the straight run from `s` to `e`, each once.
fn iter_points(s: PartCoord, e: PartCoord) -> (r: Vec<PartCoord>)
    ensures
        r@.no_duplicates(),
        forall|p: PartCoord| r@.contains(p) <==> on_run(s, e, p),
        r@.len() == run_len(s, e),
{
    let mut r: Vec<PartCoord> = Vec::new();
    let along_y = s.0.x == e.0.x;
    let (a, b) = if along_y { (s.0.y, e.0.y) } else { (s.0.x, e.0.x) };
    let lo: i32 = if a <= b { a } else { b };
    let hi: i32 = if a <= b { b } else { a };
    let mut v: i64 = lo as i64;
    while v <= hi as i64
        invariant
            lo <= v <= hi as i64 + 1,
            along_y == (s.0.x == e.0.x),
            lo as int == if along_y { if s.0.y <= e.0.y { s.0.y as int } else { e.0.y as int } }
                else { if s.0.x <= e.0.x { s.0.x as int } else { e.0.x as int } },
            hi as int == if along_y { if s.0.y <= e.0.y { e.0.y as int } else { s.0.y as int } }
                else { if s.0.x <= e.0.x { e.0.x as int } else { s.0.x as int } },
            r@.len() == v - lo,
            forall|k: int| 0 <= k < r@.len() ==> #[trigger] r@[k] == if along_y {
                PartCoord(IVec2 { x: s.0.x, y: (lo + k) as i32 })
            } else {
                PartCoord(IVec2 { x: (lo + k) as i32, y: s.0.y })
            },
        decreases hi as i64 + 1 - v,
    {
        let w = v as i32;
        if along_y {
            r.push(PartCoord(IVec2 { x: s.0.x, y: w }));
        } else {
            r.push(PartCoord(IVec2 { x: w, y: s.0.y }));
        }
        v = v + 1;
    }
    assert forall|p: PartCoord| r@.contains(p) <==> on_run(s, e, p) by {
        if on_run(s, e, p) {
            let k = if along_y { p.0.y - lo } else { p.0.x - lo };
            assert(r@[k] == p);
        }
    }
    r
}

/// Whether `p` occurs in `v`.
fn vec_contains(v: &Vec<PartCoord>, p: PartCoord) -> (b: bool)
    ensures
        b == v@.contains(p),
{
    let mut i: usize = 0;
    while i < v.len()
        invariant
            i <= v.len(),
            forall|k: int| 0 <= k < i ==> v@[k] != p,
        decreases v.len() - i,
    {
        if v[i] == p {
            assert(v@[i as int] == p);
            return true;
        }
        i = i + 1;
    }
    false
}

/// The two runs of a bent pipe meet only at the bend.
proof fn lemma_runs_meet_at_bend(g: PipeGeometry, s: PartCoord, c: PartCoord, e: PartCoord, p: PartCoord)
    requires
        segments_spec(g) == PipeSegments::Double(s, c, e),
        on_run(s, c, p),
        on_run(c, e, p),
    ensures
        p == c,
{
    assert(p.0 == c.0);
}

/// Adding `q` to a list unless it already holds it keeps the list covering
/// the union of `a0` and the items seen so far.
proof fn lemma_union_step(
    before: Seq<PartCoord>,
    after: Seq<PartCoord>,
    a0: Seq<PartCoord>,
    seen: Seq<PartCoord>,
    q: PartCoord,
)
    requires
        forall|p: PartCoord| before.contains(p) <==> (a0.contains(p) || seen.contains(p)),
        (before.contains(q) && after == before) || (!before.contains(q) && after == before.push(q)),
    ensures
        forall|p: PartCoord| after.contains(p) <==> (a0.contains(p) || seen.push(q).contains(p)),
{
    broadcast use vstd::seq_lib::lemma_seq_contains_after_push;
    assert forall|p: PartCoord| after.contains(p) <==> (a0.contains(p) || seen.push(q).contains(p)) by {
        assert(seen.push(q).contains(p) <==> (seen.contains(p) || p == q));
        assert(before.push(q).contains(p) <==> (before.contains(p) || p == q));
        assert(before.contains(p) <==> (a0.contains(p) || seen.contains(p)));
    }
}

impl PipeGeometry {
    /// The straight pieces this pipe is made of.
    pub fn segments(&self) -> (r: PipeSegments)
        ensures
            r == segments_spec(*self),
    {
        match get_bend_location(self.start, self.end, self.x_first) {
            Some(b) => PipeSegments::Double(self.start, b, self.end),
            None => PipeSegments::Single(self.start, self.end),
        }
    }

    /// All cells of this pipe, each once: a list with no cell twice, since
    /// Verus knows no hash for a coordinate and a hashed set of them would
    /// prove nothing.
    pub fn points(&self) -> (r: Vec<PartCoord>)
        ensures
            r@.no_duplicates(),
            forall|p: PartCoord| r@.contains(p) <==> pipe_contains_spec(*self, p),
            r@.len() == pipe_len(*self),
    {
        match self.segments() {
            PipeSegments::Single(s, e) => iter_points(s, e),
            PipeSegments::Double(s, c, e) => {
                let mut a = iter_points(s, c);
                let b = iter_points(c, e);
                let ghost a0 = a@;
                let ghost g = *self;
                assert(a0.contains(c) && b@.contains(c)) by {
                    assert(on_run(s, c, c));
                    assert(on_run(c, e, c));
                }
                let mut i: usize = 0;
                while i < b.len()
                    invariant
                        i <= b.len(),
                        segments_spec(g) == PipeSegments::Double(s, c, e),
                        b@.no_duplicates(),
                        a@.len() + (if b@.take(i as int).contains(c) { 1int } else { 0int }) == a0.len() + i,
                        a@.no_duplicates(),
                        forall|p: PartCoord| a0.contains(p) <==> on_run(s, c, p),
                        forall|p: PartCoord| b@.contains(p) <==> on_run(c, e, p),
                        forall|p: PartCoord| a@.contains(p) <==> (a0.contains(p) || b@.take(i as int).contains(p)),
                    decreases b.len() - i,
                {
                    let q = b[i];
                    let ghost before = a@;
                    assert(!b@.take(i as int).contains(q)) by {
                        if b@.take(i as int).contains(q) {
                            let k = choose|k: int| 0 <= k < i && b@.take(i as int)[k] == q;
                            assert(b@[k] == b@[i as int]);
                        }
                    }
                    proof {
                        if a0.contains(q) {
                            lemma_runs_meet_at_bend(g, s, c, e, q);
                        }
                    }
                    assert(forall|p: PartCoord| before.contains(p) <==> (a0.contains(p) || b@.take(i as int).contains(p)));
                    if !vec_contains(&a, q) {
                        a.push(q);
                        assert forall|x: int, y: int| 0 <= x < a@.len() && 0 <= y < a@.len() && x != y
                            implies a@[x] != a@[y] by {
                            if x == before.len() as int {
                                assert(before[y] == a@[y]);
                            } else if y == before.len() as int {
                                assert(before[x] == a@[x]);
                            }
                        }
                    }
                    assert(b@.take(i + 1) =~= b@.take(i as int).push(q));
                    assert(b@.take(i + 1).contains(c) <==> (b@.take(i as int).contains(c) || q == c)) by {
                        broadcast use vstd::seq_lib::lemma_seq_contains_after_push;
                    }
                    assert(before.contains(q) <==> q == c);
                    proof {
                        lemma_union_step(before, a@, a0, b@.take(i as int), q);
                    }
                    i = i + 1;
                }
                assert(b@.take(b@.len() as int) =~= b@);
                assert(a0.len() == run_len(s, c));
                assert(b@.len() == run_len(c, e));
                assert forall|p: PartCoord| a@.contains(p) <==> pipe_contains_spec(*self, p) by {
                    assert(a@.contains(p) <==> (a0.contains(p) || b@.take(b@.len() as int).contains(p)));
                }
                a
            },
        }
    }

    /// The same pipe moved by `offset`.
    pub fn with_offset(&self, offset: PartCoord) -> (g: Self)
        requires
            i32::MIN <= self.start.0.x + offset.0.x <= i32::MAX,
            i32::MIN <= self.start.0.y + offset.0.y <= i32::MAX,
            i32::MIN <= self.end.0.x + offset.0.x <= i32::MAX,
            i32::MIN <= self.end.0.y + offset.0.y <= i32::MAX,
        ensures
            g.start.0.x == self.start.0.x + offset.0.x,
            g.start.0.y == self.start.0.y + offset.0.y,
            g.end.0.x == self.end.0.x + offset.0.x,
            g.end.0.y == self.end.0.y + offset.0.y,
            g.x_first == self.x_first,
    {
        PipeGeometry {
            start: self.start.plus(offset),
            end: self.end.plus(offset),
            x_first: self.x_first,
        }
    }

    /// Whether the cell `p` is part of this pipe.
    pub fn contains(&self, p: PartCoord) -> (b: bool)
        ensures
            b == pipe_contains_spec(*self, p),
    {
        let pts = self.points();
        vec_contains(&pts, p)
    }

    /// Rotates this pipe a quarter turn counterclockwise with its part.
    pub fn rotate_ccw(&mut self)
        requires
            old(self).start.0.y < i32::MAX,
            old(self).end.0.y < i32::MAX,
        ensures
            *final(self) == rotated_pipe_spec(*old(self)),
    {
        self.start = self.start.rotated_ccw();
        self.end = self.end.rotated_ccw();
        self.x_first = !self.x_first;
    }
}

/// A cell is on a pipe exactly when its quarter-turned image is on the
/// quarter-turned pipe.
pub proof fn lemma_rotation_preserves_pipe_cells(g: PipeGeometry, p: PartCoord)
    ensures
        pipe_contains_spec(rotated_pipe_spec(g), rotated_ccw_spec(p)) == pipe_contains_spec(g, p),
{
}

/// Four quarter turns bring a pipe back to itself.
pub proof fn lemma_pipe_four_rotations_identity(g: PipeGeometry)
    requires
        i32::MIN < g.start.0.x < i32::MAX,
        i32::MIN < g.start.0.y < i32::MAX,
        i32::MIN < g.end.0.x < i32::MAX,
        i32::MIN < g.end.0.y < i32::MAX,
    ensures
        rotated_pipe_spec(rotated_pipe_spec(rotated_pipe_spec(rotated_pipe_spec(g)))) == g,
{
}

} // verus!
