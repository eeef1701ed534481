use instant_glicko2::engine::{ElapsedPeriods, RatingEngine};
use instant_glicko2::error::EngineError;
use instant_glicko2::result::MatchResult;
use instant_glicko2::store::{Evidence, PlayerHandle};

/// A rating payload for tests: (rating, periods seen, evidence seen).
type Toy = (i64, u64, u64);

/// Adds the score difference (in half points, minus one per game) to the
/// rating and counts periods and evidence.
fn toy_update(r: Toy, ev: &Vec<Evidence<Toy>>) -> Option<Toy> {
    let delta: i64 = ev.iter().map(|e| e.result.score_halves() as i64 - 1).sum();
    Some((r.0 + delta, r.1 + 1, r.2 + ev.len() as u64))
}

fn engine() -> RatingEngine<Toy> {
    RatingEngine::start_new(1000, 10).unwrap()
}

#[test]
fn zero_period_is_rejected() {
    assert!(matches!(
        RatingEngine::<Toy>::start_new(0, 0),
        Err(EngineError::InvalidSettings)
    ));
}

#[test]
fn elapsed_periods_are_whole_and_remainder() {
    let e = engine();
    assert_eq!(e.elapsed_periods_at(999), None);
    assert_eq!(e.elapsed_periods_at(1000), Some(ElapsedPeriods { whole: 0, into_period: 0 }));
    assert_eq!(e.elapsed_periods_at(1037), Some(ElapsedPeriods { whole: 3, into_period: 7 }));
    assert_eq!(e.due_periods_at(1037), 3);
    assert_eq!(e.due_periods_at(500), 0);
}

#[test]
fn close_with_nothing_due_changes_nothing() {
    let mut e = engine();
    let (a, _) = e.register_player_at((0, 0, 0), 1001, &toy_update).unwrap();
    assert_eq!(e.maybe_close_rating_periods_at(1009, &toy_update), Ok(0));
    assert_eq!(e.closed_periods(), 0);
    assert_eq!(e.player_rating_at(a, 1009, &toy_update), Ok(((0, 0, 0), 0)));
}

#[test]
fn periods_close_once() {
    let mut e = engine();
    let (a, _) = e.register_player_at((0, 0, 0), 1001, &toy_update).unwrap();
    assert_eq!(e.maybe_close_rating_periods_at(1035, &toy_update), Ok(3));
    assert_eq!(e.maybe_close_rating_periods_at(1035, &toy_update), Ok(0));
    assert_eq!(e.closed_periods(), 3);
    assert_eq!(e.elapsed_periods_at(1035), Some(ElapsedPeriods { whole: 0, into_period: 5 }));
    // Three closes, one pass each, no evidence.
    assert_eq!(e.player_rating_at(a, 1035, &toy_update), Ok(((0, 3, 0), 0)));
}

#[test]
fn result_is_scored_at_next_close() {
    let mut e = engine();
    let (a, _) = e.register_player_at((0, 0, 0), 1000, &toy_update).unwrap();
    let (b, _) = e.register_player_at((5, 0, 0), 1002, &toy_update).unwrap();
    assert_eq!(e.register_result_at(a, b, &MatchResult::Win, 1003, &toy_update), Ok(0));
    // Not applied before the period closes.
    assert_eq!(e.player_rating_at(a, 1009, &toy_update), Ok(((0, 0, 0), 0)));
    assert_eq!(e.player_rating_at(a, 1010, &toy_update), Ok(((1, 1, 1), 1)));
    assert_eq!(e.player_rating_at(b, 1010, &toy_update), Ok(((4, 1, 1), 0)));
}

#[test]
fn opponent_snapshot_is_current_rating() {
    let mut e = engine();
    let (a, _) = e.register_player_at((0, 0, 0), 1000, &toy_update).unwrap();
    let (b, _) = e.register_player_at((7, 0, 0), 1000, &toy_update).unwrap();
    let seen = std::cell::RefCell::new(Vec::new());
    let record = |r: Toy, ev: &Vec<Evidence<Toy>>| -> Option<Toy> {
        for x in ev.iter() {
            seen.borrow_mut().push((r.0, x.opponent.0, x.result));
        }
        Some(r)
    };
    e.register_result_at(a, b, &MatchResult::Draw, 1001, &record).unwrap();
    e.maybe_close_rating_periods_at(1010, &record).unwrap();
    assert_eq!(
        seen.into_inner(),
        vec![(0, 7, MatchResult::Draw), (7, 0, MatchResult::Draw)]
    );
}

#[test]
fn symmetric_registration_rates_alike() {
    let mut e1 = engine();
    let mut e2 = engine();
    for e in [&mut e1, &mut e2] {
        e.register_player_at((0, 0, 0), 1000, &toy_update).unwrap();
        e.register_player_at((3, 0, 0), 1000, &toy_update).unwrap();
    }
    let (a, b) = (PlayerHandle(0), PlayerHandle(1));
    e1.register_result_at(a, b, &MatchResult::Win, 1004, &toy_update).unwrap();
    e2.register_result_at(b, a, &MatchResult::Loss, 1004, &toy_update).unwrap();
    for h in [a, b] {
        assert_eq!(
            e1.player_rating_at(h, 1010, &toy_update),
            e2.player_rating_at(h, 1010, &toy_update)
        );
    }
    assert_eq!(e1.player_rating_at(a, 1010, &toy_update), Ok(((1, 1, 1), 0)));
    assert_eq!(e1.player_rating_at(b, 1010, &toy_update), Ok(((2, 1, 1), 0)));
}

#[test]
fn late_player_skips_earlier_periods() {
    let mut e = engine();
    let (a, _) = e.register_player_at((0, 0, 0), 1000, &toy_update).unwrap();
    // Mid-way through the third period: two periods close first.
    let (b, closed) = e.register_player_at((0, 0, 0), 1025, &toy_update).unwrap();
    assert_eq!(closed, 2);
    assert_eq!(b.index(), 1);
    let (ra, _) = e.player_rating_at(a, 1030, &toy_update).unwrap();
    let (rb, _) = e.player_rating_at(b, 1030, &toy_update).unwrap();
    assert_eq!(ra, (0, 3, 0));
    assert_eq!(rb, (0, 1, 0));
}

#[test]
fn unknown_handle_leaves_state_unchanged() {
    let mut e = engine();
    let (a, _) = e.register_player_at((0, 0, 0), 1000, &toy_update).unwrap();
    let stranger = PlayerHandle(1);
    assert_eq!(
        e.register_result_at(a, stranger, &MatchResult::Win, 1050, &toy_update),
        Err(EngineError::UnknownPlayer)
    );
    assert_eq!(
        e.register_result_at(stranger, a, &MatchResult::Win, 1050, &toy_update),
        Err(EngineError::UnknownPlayer)
    );
    assert_eq!(
        e.player_rating_at(stranger, 1050, &toy_update),
        Err(EngineError::UnknownPlayer)
    );
    // Nothing closed, nothing recorded.
    assert_eq!(e.closed_periods(), 0);
    assert_eq!(e.player_count(), 1);
    assert_eq!(e.player_rating_at(a, 1009, &toy_update), Ok(((0, 0, 0), 0)));
}

#[test]
fn failing_update_stops_at_that_period() {
    let mut e = engine();
    let (a, _) = e.register_player_at((0, 0, 0), 1000, &toy_update).unwrap();
    // Fails on the third period a player sees.
    let flaky = |r: Toy, ev: &Vec<Evidence<Toy>>| -> Option<Toy> {
        if r.1 >= 2 {
            None
        } else {
            toy_update(r, ev)
        }
    };
    assert_eq!(
        e.maybe_close_rating_periods_at(1045, &flaky),
        Err(EngineError::NonConvergent)
    );
    assert_eq!(e.closed_periods(), 2);
    assert_eq!(
        e.register_player_at((0, 0, 0), 1045, &flaky),
        Err(EngineError::NonConvergent)
    );
    assert_eq!(e.player_count(), 1);
    assert_eq!(e.player_rating_at(a, 1045, &toy_update), Ok(((0, 4, 0), 2)));
}

#[test]
fn handles_are_listed_in_order() {
    let mut e = engine();
    assert!(e.player_handles().is_empty());
    e.register_player_at((0, 0, 0), 1000, &toy_update).unwrap();
    e.register_player_at((0, 0, 0), 1000, &toy_update).unwrap();
    assert_eq!(e.player_handles(), vec![PlayerHandle(0), PlayerHandle(1)]);
    assert_eq!(e.epoch(), 1000);
    assert_eq!(e.rating_period_duration(), 10);
}
