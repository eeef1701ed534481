use vstd::prelude::*;
use crate::engine::{
    caught_up, completed_periods_at, due_at, engine_wf, period_boundary, with_evidence,
    with_match, EngineView,
};
use crate::result::{inverted, MatchResult};
use crate::store::{closes_period, updated_by, Evidence, PlayerView};

verus! {

/// The update gives at most one outcome for each rating and evidence.
pub open spec fn deterministic<R, F: Fn(R, &Vec<Evidence<R>>) -> Option<R>>(update: F) -> bool {
    forall|rating: R, evidence: Seq<Evidence<R>>, o1: Option<R>, o2: Option<R>|
        #![trigger updated_by(update, rating, evidence, o1), updated_by(update, rating, evidence, o2)]
        updated_by(update, rating, evidence, o1) && updated_by(update, rating, evidence, o2) ==> o1
            == o2
}

/// Once the periods due at `now` are closed, none is due at `now` any more:
/// a second close at the same instant closes nothing and changes nothing.
pub proof fn lemma_close_idempotent<R, F: Fn(R, &Vec<Evidence<R>>) -> Option<R>>(
    update: F,
    before: EngineView<R>,
    after: EngineView<R>,
    now: nat,
)
    requires
        engine_wf(before),
        caught_up(update, before, after, now),
    ensures
        due_at(after, now) == 0,
{
}

/// Registering "a beats b" and registering "b loses to a" (any result and
/// its inversion, with the players swapped) leave the same players behind.
pub proof fn lemma_match_symmetry<R>(
    ps: Seq<PlayerView<R>>,
    a: int,
    b: int,
    result: MatchResult,
)
    requires
        0 <= a < ps.len(),
        0 <= b < ps.len(),
        a != b,
    ensures
        with_match(ps, a, b, result) == with_match(ps, b, a, inverted(result)),
{
    crate::result::lemma_invert_involution(result);
    let ra = ps[a].rating;
    let rb = ps[b].rating;
    let x = with_evidence(
        with_evidence(ps, a, Evidence { opponent: rb, result }),
        b,
        Evidence { opponent: ra, result: inverted(result) },
    );
    let y = with_evidence(
        with_evidence(ps, b, Evidence { opponent: ra, result: inverted(result) }),
        a,
        Evidence { opponent: rb, result: inverted(inverted(result)) },
    );
    assert(x =~= y);
}

/// With a deterministic update, closing a period on the same players gives
/// the same players.
pub proof fn lemma_close_deterministic<R, F: Fn(R, &Vec<Evidence<R>>) -> Option<R>>(
    update: F,
    ps: Seq<PlayerView<R>>,
    x: Seq<PlayerView<R>>,
    y: Seq<PlayerView<R>>,
)
    requires
        deterministic(update),
        closes_period(update, ps, x),
        closes_period(update, ps, y),
    ensures
        x == y,
{
    assert forall|i: int| 0 <= i < x.len() implies x[i] == y[i] by {
        assert(updated_by(update, ps[i].rating, ps[i].pending, Some(x[i].rating)));
        assert(updated_by(update, ps[i].rating, ps[i].pending, Some(y[i].rating)));
    }
    assert(x =~= y);
}

/// With a deterministic update, a period closed after "a beats b" gives both
/// players (and every other) the same ratings as one closed after "b loses
/// to a".
pub proof fn lemma_symmetric_results_rate_alike<R, F: Fn(R, &Vec<Evidence<R>>) -> Option<R>>(
    update: F,
    ps: Seq<PlayerView<R>>,
    a: int,
    b: int,
    result: MatchResult,
    x: Seq<PlayerView<R>>,
    y: Seq<PlayerView<R>>,
)
    requires
        deterministic(update),
        0 <= a < ps.len(),
        0 <= b < ps.len(),
        a != b,
        closes_period(update, with_match(ps, a, b, result), x),
        closes_period(update, with_match(ps, b, a, inverted(result)), y),
    ensures
        x == y,
{
    lemma_match_symmetry(ps, a, b, result);
    lemma_close_deterministic(update, with_match(ps, a, b, result), x, y);
}

/// A player registered at `now`, in the period in progress or later, joins
/// once every period that ended by `now` is closed: its joining period is
/// the one that contains `now`, so no period before it is ever applied to it.
pub proof fn lemma_registration_period<R, F: Fn(R, &Vec<Evidence<R>>) -> Option<R>>(
    update: F,
    before: EngineView<R>,
    after: EngineView<R>,
    now: nat,
)
    requires
        engine_wf(before),
        now >= period_boundary(before),
        caught_up(update, before, after, now),
    ensures
        after.closed == completed_periods_at(before, now),
        period_boundary(after) <= now < period_boundary(after) + after.period_duration,
{
    let d = before.period_duration;
    let x = (now - before.epoch) as nat;
    assert(before.closed * d <= x);
    assert(before.closed <= x / d) by {
        if before.closed > x / d {
            assert((x / d + 1) * d <= before.closed * d) by (nonlinear_arith)
                requires
                    before.closed >= x / d + 1,
                    d > 0,
            ;
            vstd::arithmetic::div_mod::lemma_fundamental_div_mod(x as int, d as int);
            assert((x / d + 1) * d == d * (x / d) + d) by (nonlinear_arith);
        }
    }
    vstd::arithmetic::div_mod::lemma_fundamental_div_mod(x as int, d as int);
    assert((x / d) * d == d * (x / d)) by (nonlinear_arith);
}

} // verus!
