//! Score and high-score counters with the monotonic high-score invariant.

use vstd::prelude::*;
use vstd::math::max;

verus! {

/// Score counters. `high_score` never decreases; `score` is folded into it
/// and zeroed on every round restart.
#[derive(Clone, Copy, PartialEq, Eq, Structural, Debug)]
pub struct Score {
    pub score: i32,
    pub high_score: i32,
}

/// The two operations a round performs on the counters.
#[derive(Clone, Copy, PartialEq, Eq, Structural, Debug)]
pub enum ScoreOp {
    Increment,
    Reset,
}

/// One operation on the counters, over unbounded integers:
/// an increment raises the score by one and folds it into the high score;
/// a reset folds the score into the high score and zeroes it.
pub open spec fn score_op_step(s: (int, int), op: ScoreOp) -> (int, int) {
    match op {
        ScoreOp::Increment => (s.0 + 1, max(s.1, s.0 + 1)),
        ScoreOp::Reset => (0, max(s.1, s.0)),
    }
}

/// A whole sequence of operations, applied in order.
pub open spec fn run_score_ops(s: (int, int), ops: Seq<ScoreOp>) -> (int, int)
    decreases ops.len(),
{
    if ops.len() == 0 {
        s
    } else {
        score_op_step(run_score_ops(s, ops.drop_last()), ops.last())
    }
}

/// The high score never decreases, whatever sequence of increments and
/// resets is applied.
pub proof fn lemma_high_score_monotonic(s: (int, int), ops: Seq<ScoreOp>)
    ensures
        run_score_ops(s, ops).1 >= s.1,
    decreases ops.len(),
{
    if ops.len() > 0 {
        lemma_high_score_monotonic(s, ops.drop_last());
    }
}

impl Score {
    pub open spec fn wf(self) -> bool {
        0 <= self.score <= self.high_score
    }

    pub open spec fn view(self) -> (int, int) {
        (self.score as int, self.high_score as int)
    }

    pub fn new() -> (s: Score)
        ensures
            s.score == 0,
            s.high_score == 0,
            s.wf(),
    {
        Score { score: 0, high_score: 0 }
    }

    pub fn increment(&mut self)
        requires
            old(self).score < i32::MAX,
        ensures
            final(self)@ == score_op_step(old(self)@, ScoreOp::Increment),
            final(self).score == old(self).score + 1,
            final(self).high_score >= old(self).high_score,
            old(self).wf() ==> final(self).wf(),
    {
        self.score = self.score + 1;
        if self.high_score < self.score {
            self.high_score = self.score;
        }
    }

    pub fn reset(&mut self)
        ensures
            final(self)@ == score_op_step(old(self)@, ScoreOp::Reset),
            final(self).score == 0,
            final(self).high_score >= old(self).score,
            final(self).high_score >= old(self).high_score,
            old(self).wf() ==> final(self).wf() && final(self).high_score == old(self).high_score,
    {
        if self.high_score < self.score {
            self.high_score = self.score;
        }
        self.score = 0;
    }
}

} // verus!
