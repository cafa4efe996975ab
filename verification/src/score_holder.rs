use vstd::prelude::*;

verus! {

/// The score of the game in progress and the best score so far.
#[derive(Clone, Copy, Debug)]
pub struct ScoreHolder {
    pub score: u32,
    pub high_score: u32,
}

/// The score after `add` points, held at `u32::MAX`.
pub open spec fn saturated_sum(score: int, add: int) -> int {
    if score + add > u32::MAX {
        u32::MAX as int
    } else {
        score + add
    }
}

/// The scores after `add` points: the score grows, held at `u32::MAX`, and the high score
/// follows it once it is passed.
pub open spec fn score_added(sh: ScoreHolder, add: u32) -> ScoreHolder {
    let score = saturated_sum(sh.score as int, add as int) as u32;
    ScoreHolder { score, high_score: if score > sh.high_score { score } else { sh.high_score } }
}

impl ScoreHolder {
    pub fn new(high_score: u32) -> (s: ScoreHolder)
        ensures
            s.score == 0,
            s.high_score == high_score,
    {
        ScoreHolder { score: 0, high_score }
    }

    pub fn reset_score(&mut self)
        ensures
            final(self).score == 0,
            final(self).high_score == old(self).high_score,
    {
        self.score = 0;
    }

    /// Adds points; the high score follows the score when it is passed.
    pub fn add_score(&mut self, add: u32)
        ensures
            final(self).score == saturated_sum(old(self).score as int, add as int),
            final(self).high_score == if final(self).score > old(self).high_score {
                final(self).score
            } else {
                old(self).high_score
            },
            *final(self) == score_added(*old(self), add),
    {
        self.score = self.score.saturating_add(add);
        if self.score > self.high_score {
            self.high_score = self.score;
        }
    }
}

} // verus!
