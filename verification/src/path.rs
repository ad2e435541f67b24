//! Paths under construction: the segments that the path operators append.

use vstd::prelude::*;
use crate::object::Number;

verus! {

/// One segment of a path.
#[derive(Clone, Copy, Debug, PartialEq, Eq, Structural)]
pub enum PathOp {
    MoveTo(Number, Number),
    LineTo(Number, Number),
    /// First control point, second control point, end point.
    CurveTo(Number, Number, Number, Number, Number, Number),
    /// Corner, width, height.
    Rect(Number, Number, Number, Number),
    Close,
}

/// A path: its segments in the order they were appended.
#[derive(Debug)]
pub struct Path {
    pub ops: Vec<PathOp>,
}

/// The current point of a path: the end point of its last segment that is not
/// a `Close`. There is none when the path is empty or holds only `Close`
/// segments, nor after a rectangle.
pub open spec fn spec_current_point(ops: Seq<PathOp>) -> Option<(Number, Number)>
    decreases ops.len(),
{
    if ops.len() == 0 {
        None
    } else {
        match ops.last() {
            PathOp::MoveTo(x, y) => Some((x, y)),
            PathOp::LineTo(x, y) => Some((x, y)),
            PathOp::CurveTo(_, _, _, _, x, y) => Some((x, y)),
            PathOp::Rect(_, _, _, _) => None,
            PathOp::Close => spec_current_point(ops.drop_last()),
        }
    }
}

impl Path {
    /// An empty path.
    pub fn new() -> (p: Path)
        ensures
            p.ops@.len() == 0,
    {
        Path { ops: Vec::new() }
    }

    /// The current point of the path, if it has one.
    pub fn current_point(&self) -> (r: Option<(Number, Number)>)
        ensures
            r == spec_current_point(self.ops@),
    {
        let mut n: usize = self.ops.len();
        assert(self.ops@.take(n as int) =~= self.ops@);
        while n > 0
            invariant
                0 <= n <= self.ops@.len(),
                spec_current_point(self.ops@) == spec_current_point(self.ops@.take(n as int)),
            decreases n,
        {
            proof {
                assert(self.ops@.take(n as int).drop_last() =~= self.ops@.take(n - 1));
                assert(self.ops@.take(n as int).last() == self.ops@[n - 1]);
            }
            match self.ops[n - 1] {
                PathOp::MoveTo(x, y) => {
                    return Some((x, y));
                },
                PathOp::LineTo(x, y) => {
                    return Some((x, y));
                },
                PathOp::CurveTo(_, _, _, _, x, y) => {
                    return Some((x, y));
                },
                PathOp::Rect(_, _, _, _) => {
                    return None;
                },
                PathOp::Close => {
                    n -= 1;
                },
            }
        }
        None
    }

    /// A copy of the path.
    pub fn clone(&self) -> (p: Path)
        ensures
            p.ops@ == self.ops@,
    {
        let mut ops: Vec<PathOp> = Vec::new();
        let mut i: usize = 0;
        while i < self.ops.len()
            invariant
                0 <= i <= self.ops@.len(),
                ops@ == self.ops@.take(i as int),
            decreases self.ops@.len() - i,
        {
            ops.push(self.ops[i]);
            i += 1;
            assert(ops@ =~= self.ops@.take(i as int));
        }
        assert(self.ops@.take(i as int) =~= self.ops@);
        Path { ops }
    }
}

} // verus!
