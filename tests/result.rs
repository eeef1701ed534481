use instant_glicko2::result::MatchResult;

#[test]
fn invert_swaps_win_and_loss() {
    assert_eq!(MatchResult::win().invert(), MatchResult::Loss);
    assert_eq!(MatchResult::loss().invert(), MatchResult::Win);
    assert_eq!(MatchResult::draw().invert(), MatchResult::Draw);
}

#[test]
fn invert_twice_is_identity() {
    for r in [MatchResult::Win, MatchResult::Loss, MatchResult::Draw] {
        assert_eq!(r.invert().invert(), r);
    }
}

#[test]
fn scores_in_half_points() {
    assert_eq!(MatchResult::Win.score_halves(), 2);
    assert_eq!(MatchResult::Loss.score_halves(), 0);
    assert_eq!(MatchResult::Draw.score_halves(), 1);
    for r in [MatchResult::Win, MatchResult::Loss, MatchResult::Draw] {
        assert_eq!(r.score_halves() + r.invert().score_halves(), 2);
    }
}
