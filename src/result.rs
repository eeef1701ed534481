use vstd::prelude::*;

verus! {

/// The outcome of a match, stated from one player's point of view.
#[derive(Clone, Copy, Debug, PartialEq, Eq, Structural)]
pub enum MatchResult {
    Win,
    Loss,
    Draw,
}

/// The same match seen from the opponent's side: a win becomes a loss and
/// the other way round; a draw stays a draw.
pub open spec fn inverted(r: MatchResult) -> MatchResult {
    match r {
        MatchResult::Win => MatchResult::Loss,
        MatchResult::Loss => MatchResult::Win,
        MatchResult::Draw => MatchResult::Draw,
    }
}

/// The Glicko-2 score of a result counted in half points: 2 for a win
/// (score 1), 0 for a loss (score 0), 1 for a draw (score 1/2).
pub open spec fn score_in_halves(r: MatchResult) -> nat {
    match r {
        MatchResult::Win => 2,
        MatchResult::Loss => 0,
        MatchResult::Draw => 1,
    }
}

impl MatchResult {
    pub fn win() -> (r: MatchResult)
        ensures
            r == MatchResult::Win,
    {
        MatchResult::Win
    }

    pub fn loss() -> (r: MatchResult)
        ensures
            r == MatchResult::Loss,
    {
        MatchResult::Loss
    }

    pub fn draw() -> (r: MatchResult)
        ensures
            r == MatchResult::Draw,
    {
        MatchResult::Draw
    }

    /// The result from the opponent's perspective.
    pub fn invert(&self) -> (r: MatchResult)
        ensures
            r == inverted(*self),
    {
        match self {
            MatchResult::Win => MatchResult::Loss,
            MatchResult::Loss => MatchResult::Win,
            MatchResult::Draw => MatchResult::Draw,
        }
    }

    /// The score in half points (the Glicko-2 score is this value over two).
    pub fn score_halves(&self) -> (s: u8)
        ensures
            s as nat == score_in_halves(*self),
    {
        match self {
            MatchResult::Win => 2,
            MatchResult::Loss => 0,
            MatchResult::Draw => 1,
        }
    }
}

/// Inverting a result twice gives it back.
pub proof fn lemma_invert_involution(r: MatchResult)
    ensures
        inverted(inverted(r)) == r,
{
}

/// The two sides of one match score one point between them.
pub proof fn lemma_inverted_scores_sum(r: MatchResult)
    ensures
        score_in_halves(r) + score_in_halves(inverted(r)) == 2,
{
}

} // verus!
