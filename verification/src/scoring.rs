//! The scoring table: a fixed, total lookup from an ordered pair of die
//! faces to a point value. The table is symmetric in its two arguments,
//! every entry is positive, and no entry exceeds [`MAX_PAIR_SCORE`].

use vstd::prelude::*;

verus! {

/// One of the five physical resting positions of a thrown pig die.
#[derive(Clone, Copy, Debug, PartialEq, Eq, Structural)]
pub enum Pig {
    Sider,
    Hoofer,
    Razorback,
    Snouter,
    Jowler,
}

/// The largest point value in the scoring table (a double leaning jowler).
pub const MAX_PAIR_SCORE: usize = 60;

/// The point value of a reported pair of die faces.
///
/// This is the authoritative table: a single die leaning on face `x` is
/// scored as the pair `(x, Sider)`, a double as `(x, x)`, and a mixed combo
/// as the pair of its two chosen faces.
pub open spec fn score_spec(a: Pig, b: Pig) -> nat {
    match (a, b) {
        (Pig::Sider, Pig::Sider) => 1,
        (Pig::Sider, Pig::Hoofer) => 5,
        (Pig::Sider, Pig::Razorback) => 5,
        (Pig::Sider, Pig::Snouter) => 10,
        (Pig::Sider, Pig::Jowler) => 15,
        (Pig::Hoofer, Pig::Sider) => 5,
        (Pig::Hoofer, Pig::Hoofer) => 20,
        (Pig::Hoofer, Pig::Razorback) => 5,
        (Pig::Hoofer, Pig::Snouter) => 10,
        (Pig::Hoofer, Pig::Jowler) => 15,
        (Pig::Razorback, Pig::Sider) => 5,
        (Pig::Razorback, Pig::Hoofer) => 5,
        (Pig::Razorback, Pig::Razorback) => 20,
        (Pig::Razorback, Pig::Snouter) => 10,
        (Pig::Razorback, Pig::Jowler) => 15,
        (Pig::Snouter, Pig::Sider) => 10,
        (Pig::Snouter, Pig::Hoofer) => 10,
        (Pig::Snouter, Pig::Razorback) => 10,
        (Pig::Snouter, Pig::Snouter) => 40,
        (Pig::Snouter, Pig::Jowler) => 15,
        (Pig::Jowler, Pig::Sider) => 15,
        (Pig::Jowler, Pig::Hoofer) => 15,
        (Pig::Jowler, Pig::Razorback) => 15,
        (Pig::Jowler, Pig::Snouter) => 15,
        (Pig::Jowler, Pig::Jowler) => 60,
    }
}

/// The table lookup, total over all 25 ordered face pairs.
pub fn lookup(a: Pig, b: Pig) -> (points: usize)
    ensures
        points == score_spec(a, b),
{
    match (a, b) {
        (Pig::Sider, Pig::Sider) => 1,
        (Pig::Sider, Pig::Hoofer) => 5,
        (Pig::Sider, Pig::Razorback) => 5,
        (Pig::Sider, Pig::Snouter) => 10,
        (Pig::Sider, Pig::Jowler) => 15,
        (Pig::Hoofer, Pig::Sider) => 5,
        (Pig::Hoofer, Pig::Hoofer) => 20,
        (Pig::Hoofer, Pig::Razorback) => 5,
        (Pig::Hoofer, Pig::Snouter) => 10,
        (Pig::Hoofer, Pig::Jowler) => 15,
        (Pig::Razorback, Pig::Sider) => 5,
        (Pig::Razorback, Pig::Hoofer) => 5,
        (Pig::Razorback, Pig::Razorback) => 20,
        (Pig::Razorback, Pig::Snouter) => 10,
        (Pig::Razorback, Pig::Jowler) => 15,
        (Pig::Snouter, Pig::Sider) => 10,
        (Pig::Snouter, Pig::Hoofer) => 10,
        (Pig::Snouter, Pig::Razorback) => 10,
        (Pig::Snouter, Pig::Snouter) => 40,
        (Pig::Snouter, Pig::Jowler) => 15,
        (Pig::Jowler, Pig::Sider) => 15,
        (Pig::Jowler, Pig::Hoofer) => 15,
        (Pig::Jowler, Pig::Razorback) => 15,
        (Pig::Jowler, Pig::Snouter) => 15,
        (Pig::Jowler, Pig::Jowler) => 60,
    }
}

/// The scoring table does not depend on the order of the two faces, and
/// every entry lies between 1 and [`MAX_PAIR_SCORE`] points.
pub proof fn lemma_score_symmetric_and_bounded(a: Pig, b: Pig)
    ensures
        score_spec(a, b) == score_spec(b, a),
        1 <= score_spec(a, b) <= MAX_PAIR_SCORE,
{
}

} // verus!
