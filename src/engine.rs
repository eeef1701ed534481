use vstd::prelude::*;
use crate::error::EngineError;
use crate::result::{inverted, MatchResult};
use crate::store::{closes_period, Evidence, PlayerHandle, PlayerStore, PlayerView, updated_by};

verus! {

/// The abstract state of an engine. Times and durations are counted in one
/// unit of the caller's choosing (nanoseconds since the Unix epoch, say).
pub struct EngineView<R> {
    /// The instant the engine was started.
    pub epoch: nat,
    /// The length of one rating period.
    pub period_duration: nat,
    /// The number of rating periods closed since the engine started.
    pub closed: nat,
    /// The players, in handle order.
    pub players: Seq<PlayerView<R>>,
}

/// The instant at which the last closed period ended (the start of the
/// period in progress).
pub open spec fn period_boundary<R>(v: EngineView<R>) -> nat {
    v.epoch + v.closed * v.period_duration
}

/// The number of whole periods between the engine's start and `now`.
pub open spec fn completed_periods_at<R>(v: EngineView<R>, now: nat) -> nat {
    if now >= v.epoch {
        ((now - v.epoch) as nat / v.period_duration) as nat
    } else {
        0
    }
}

/// The number of whole periods that have elapsed at `now` and are not closed
/// yet.
pub open spec fn due_at<R>(v: EngineView<R>, now: nat) -> nat {
    if completed_periods_at(v, now) > v.closed {
        (completed_periods_at(v, now) - v.closed) as nat
    } else {
        0
    }
}

/// The invariant of an engine: a positive period, a boundary that fits the
/// time type, and no player who joined after the periods closed so far.
pub open spec fn engine_wf<R>(v: EngineView<R>) -> bool {
    &&& v.period_duration > 0
    &&& period_boundary(v) <= u64::MAX
    &&& forall|i: int| 0 <= i < v.players.len() ==> (#[trigger] v.players[i]).joined <= v.closed
}

/// `after` is `before` with `k` periods closed in turn, each one for every
/// player (see `closes_period`).
pub open spec fn closes_periods<R, F: Fn(R, &Vec<Evidence<R>>) -> Option<R>>(
    update: F,
    before: Seq<PlayerView<R>>,
    after: Seq<PlayerView<R>>,
    k: nat,
) -> bool
    decreases k,
{
    if k == 0 {
        after == before
    } else {
        exists|mid: Seq<PlayerView<R>>|
            closes_periods(update, before, mid, (k - 1) as nat) && #[trigger] closes_period(
                update,
                mid,
                after,
            )
    }
}

/// `ps` with one piece of evidence appended to player `i`'s accumulator.
pub open spec fn with_evidence<R>(ps: Seq<PlayerView<R>>, i: int, e: Evidence<R>) -> Seq<
    PlayerView<R>,
> {
    ps.update(i, PlayerView { pending: ps[i].pending.push(e), ..ps[i] })
}

/// `ps` after the match of `a` against `b` with the given result (from
/// `a`'s side): each player gets a snapshot of the other's current rating,
/// and `b` gets the inverted result.
pub open spec fn with_match<R>(ps: Seq<PlayerView<R>>, a: int, b: int, result: MatchResult) -> Seq<
    PlayerView<R>,
> {
    let ra = ps[a].rating;
    let rb = ps[b].rating;
    with_evidence(
        with_evidence(ps, a, Evidence { opponent: rb, result }),
        b,
        Evidence { opponent: ra, result: inverted(result) },
    )
}

/// `after` is `before` with some number of periods closed in turn, and
/// nothing else changed.
pub open spec fn advanced<R, F: Fn(R, &Vec<Evidence<R>>) -> Option<R>>(
    update: F,
    before: EngineView<R>,
    after: EngineView<R>,
) -> bool {
    &&& after.epoch == before.epoch
    &&& after.period_duration == before.period_duration
    &&& before.closed <= after.closed
    &&& after.players.len() == before.players.len()
    &&& closes_periods(update, before.players, after.players, (after.closed - before.closed) as nat)
}

/// `after` is `before` with every period that is due at `now` closed.
pub open spec fn caught_up<R, F: Fn(R, &Vec<Evidence<R>>) -> Option<R>>(
    update: F,
    before: EngineView<R>,
    after: EngineView<R>,
    now: nat,
) -> bool {
    &&& advanced(update, before, after)
    &&& after.closed == before.closed + due_at(before, now)
}

/// Closing the periods due at `now` stopped short of the last one, at a
/// period in which the update yielded no rating for some player; `after`
/// holds the periods closed before that one.
pub open spec fn stalled<R, F: Fn(R, &Vec<Evidence<R>>) -> Option<R>>(
    update: F,
    before: EngineView<R>,
    after: EngineView<R>,
    now: nat,
) -> bool {
    &&& advanced(update, before, after)
    &&& after.closed < before.closed + due_at(before, now)
    &&& exists|i: int|
        0 <= i < after.players.len() && updated_by(
            update,
            #[trigger] after.players[i].rating,
            after.players[i].pending,
            None,
        )
}

/// How far the engine is into the periods not yet closed: `whole` periods
/// and `into_period` time units of the next one. As a fraction of periods
/// this is `whole + into_period / period_duration`.
#[derive(Clone, Copy, Debug, PartialEq, Eq, Structural)]
pub struct ElapsedPeriods {
    pub whole: u64,
    pub into_period: u64,
}

/// A Glicko-2 rating engine that takes match results as they arrive and
/// closes rating periods lazily, the first time an operation is called
/// after a period boundary has passed.
pub struct RatingEngine<R> {
    epoch: u64,
    period_duration: u64,
    closed: u64,
    store: PlayerStore<R>,
}

impl<R> View for RatingEngine<R> {
    type V = EngineView<R>;

    closed spec fn view(&self) -> EngineView<R> {
        EngineView {
            epoch: self.epoch as nat,
            period_duration: self.period_duration as nat,
            closed: self.closed as nat,
            players: self.store@,
        }
    }
}

impl<R: Copy> RatingEngine<R> {
    /// The engine's invariant.
    pub open spec fn wf(&self) -> bool {
        engine_wf(self@)
    }

    /// Starts an engine at `start_time` with periods of the given length.
    pub fn start_new(start_time: u64, rating_period_duration: u64) -> (r: Result<
        RatingEngine<R>,
        EngineError,
    >)
        ensures
            rating_period_duration == 0 ==> r is Err && r->Err_0 == EngineError::InvalidSettings,
            rating_period_duration > 0 ==> r is Ok && r->Ok_0.wf() && r->Ok_0@ == (EngineView::<R> {
                epoch: start_time as nat,
                period_duration: rating_period_duration as nat,
                closed: 0,
                players: Seq::empty(),
            }),
    {
        if rating_period_duration == 0 {
            return Err(EngineError::InvalidSettings);
        }
        let e = RatingEngine {
            epoch: start_time,
            period_duration: rating_period_duration,
            closed: 0,
            store: PlayerStore::new(),
        };
        Ok(e)
    }

    /// The instant the engine was started.
    pub fn epoch(&self) -> (t: u64)
        ensures
            t == self@.epoch,
    {
        self.epoch
    }

    /// The length of one rating period.
    pub fn rating_period_duration(&self) -> (d: u64)
        ensures
            d == self@.period_duration,
    {
        self.period_duration
    }

    /// The number of periods closed since the engine started.
    pub fn closed_periods(&self) -> (n: u64)
        ensures
            n == self@.closed,
    {
        self.closed
    }

    /// The number of registered players.
    pub fn player_count(&self) -> (n: usize)
        ensures
            n == self@.players.len(),
    {
        self.store.len()
    }

    /// The number of whole periods that have elapsed at `now` and are not
    /// closed yet.
    pub fn due_periods_at(&self, now: u64) -> (n: u64)
        requires
            self.wf(),
        ensures
            n == due_at(self@, now as nat),
    {
        if now < self.epoch {
            return 0;
        }
        let c = (now - self.epoch) / self.period_duration;
        if c > self.closed {
            c - self.closed
        } else {
            0
        }
    }

    /// How far `now` lies past the end of the last closed period, or `None`
    /// if it lies before it.
    pub fn elapsed_periods_at(&self, now: u64) -> (r: Option<ElapsedPeriods>)
        requires
            self.wf(),
        ensures
            now < period_boundary(self@) ==> r is None,
            now >= period_boundary(self@) ==> r is Some && r->Some_0.whole == (now - period_boundary(
                self@,
            )) as nat / self@.period_duration && r->Some_0.into_period == (now - period_boundary(
                self@,
            )) as nat % self@.period_duration,
    {
        let boundary = self.epoch + self.closed * self.period_duration;
        if now < boundary {
            return None;
        }
        let since = now - boundary;
        Some(
            ElapsedPeriods {
                whole: since / self.period_duration,
                into_period: since % self.period_duration,
            },
        )
    }

    /// Closes every whole period that has elapsed at `now` and is not closed
    /// yet, one period at a time, each for every player in handle order (see
    /// `PlayerStore::close_period`). Returns the number of periods closed.
    /// If the update yields no rating for some player, the period in which
    /// that happens is not applied, the periods closed before it stay, and
    /// `NonConvergent` is returned.
    pub fn maybe_close_rating_periods_at<F: Fn(R, &Vec<Evidence<R>>) -> Option<R>>(
        &mut self,
        now: u64,
        update: &F,
    ) -> (r: Result<u64, EngineError>)
        requires
            old(self).wf(),
            forall|rating: R, ev: &Vec<Evidence<R>>| call_requires(*update, (rating, ev)),
        ensures
            final(self).wf(),
            due_at(old(self)@, now as nat) == 0 ==> r == Ok::<u64, EngineError>(0) && final(self)@
                == old(self)@,
            r is Ok ==> {
                &&& r->Ok_0 == due_at(old(self)@, now as nat)
                &&& caught_up(*update, old(self)@, final(self)@, now as nat)
            },
            r is Err ==> {
                &&& r == Err::<u64, EngineError>(EngineError::NonConvergent)
                &&& stalled(*update, old(self)@, final(self)@, now as nat)
            },
    {
        let due = self.due_periods_at(now);
        let ghost start = self@;
        let ghost completed = completed_periods_at(start, now as nat);
        let mut k: u64 = 0;
        while k < due
            invariant
                engine_wf(self@),
                start == old(self)@,
                forall|rating: R, ev: &Vec<Evidence<R>>| call_requires(*update, (rating, ev)),
                due == due_at(start, now as nat),
                completed == completed_periods_at(start, now as nat),
                due > 0 ==> start.closed + due == completed,
                k <= due,
                self@.epoch == start.epoch,
                self@.period_duration == start.period_duration,
                self@.closed == start.closed + k,
                self@.players.len() == start.players.len(),
                closes_periods(*update, start.players, self@.players, k as nat),
            decreases due - k,
        {
            let ghost mid = self@.players;
            let step = self.store.close_period(update);
            if let Err(e) = step {
                return Err(e);
            }
            proof {
                lemma_periods_fit((now - start.epoch) as nat, start.period_duration, self@.closed + 1);
                assert(closes_periods(*update, start.players, mid, k as nat) && closes_period(
                    *update,
                    mid,
                    self@.players,
                ));
            }
            self.closed = self.closed + 1;
            k = k + 1;
        }
        Ok(due)
    }

    /// Registers a player with the given rating, after closing the periods
    /// due at `now`. The player joins in the period in progress, so none of
    /// the periods closed before is ever applied to it. Returns the new
    /// handle and the number of periods closed.
    pub fn register_player_at<F: Fn(R, &Vec<Evidence<R>>) -> Option<R>>(
        &mut self,
        rating: R,
        now: u64,
        update: &F,
    ) -> (r: Result<(PlayerHandle, u64), EngineError>)
        requires
            old(self).wf(),
            old(self)@.players.len() < usize::MAX,
            forall|rating: R, ev: &Vec<Evidence<R>>| call_requires(*update, (rating, ev)),
        ensures
            final(self).wf(),
            r is Ok ==> {
                &&& r->Ok_0.0.0 == old(self)@.players.len()
                &&& r->Ok_0.1 == due_at(old(self)@, now as nat)
                &&& final(self)@.players.len() == old(self)@.players.len() + 1
                &&& caught_up(
                    *update,
                    old(self)@,
                    EngineView { players: final(self)@.players.drop_last(), ..final(self)@ },
                    now as nat,
                )
                &&& final(self)@.players.last() == (PlayerView {
                    rating,
                    joined: final(self)@.closed,
                    pending: Seq::empty(),
                })
            },
            r is Err ==> {
                &&& r->Err_0 == EngineError::NonConvergent
                &&& stalled(*update, old(self)@, final(self)@, now as nat)
            },
    {
        let closed = match self.maybe_close_rating_periods_at(now, update) {
            Ok(k) => k,
            Err(e) => {
                return Err(e);
            },
        };
        let ghost mid = self@;
        let h = self.store.register(rating, self.closed);
        assert(self@.players.drop_last() =~= mid.players);
        Ok((h, closed))
    }

    /// Registers the result of a match between two players, stated from
    /// `player1`'s side, after closing the periods due at `now`. Each player
    /// receives a snapshot of the other's current rating as evidence;
    /// `player2` receives the inverted result. Returns the number of
    /// periods closed. An unknown handle is refused before anything changes.
    pub fn register_result_at<F: Fn(R, &Vec<Evidence<R>>) -> Option<R>>(
        &mut self,
        player1: PlayerHandle,
        player2: PlayerHandle,
        result: &MatchResult,
        now: u64,
        update: &F,
    ) -> (r: Result<u64, EngineError>)
        requires
            old(self).wf(),
            forall|rating: R, ev: &Vec<Evidence<R>>| call_requires(*update, (rating, ev)),
        ensures
            final(self).wf(),
            player1.0 >= old(self)@.players.len() || player2.0 >= old(self)@.players.len() ==> {
                &&& r == Err::<u64, EngineError>(EngineError::UnknownPlayer)
                &&& final(self)@ == old(self)@
            },
            r is Ok ==> {
                &&& r->Ok_0 == due_at(old(self)@, now as nat)
                &&& exists|mid: EngineView<R>|
                    #[trigger] caught_up(*update, old(self)@, mid, now as nat) && final(self)@ == (
                    EngineView {
                        players: with_match(mid.players, player1.0 as int, player2.0 as int, *result),
                        ..mid
                    })
            },
            r is Err && player1.0 < old(self)@.players.len() && player2.0 < old(
                self,
            )@.players.len() ==> {
                &&& r->Err_0 == EngineError::NonConvergent
                &&& stalled(*update, old(self)@, final(self)@, now as nat)
            },
    {
        if !self.store.contains(player1) || !self.store.contains(player2) {
            return Err(EngineError::UnknownPlayer);
        }
        let closed = match self.maybe_close_rating_periods_at(now, update) {
            Ok(k) => k,
            Err(e) => {
                return Err(e);
            },
        };
        let ghost mid = self@;
        let (r1, r2) = match (self.store.rating(player1), self.store.rating(player2)) {
            (Ok(a), Ok(b)) => (a, b),
            _ => {
                return Err(EngineError::UnknownPlayer);
            },
        };
        let first = self.store.record_result(player1, r2, *result);
        let second = self.store.record_result(player2, r1, result.invert());
        if first.is_err() || second.is_err() {
            return Err(EngineError::UnknownPlayer);
        }
        assert(self@ == (EngineView {
            players: with_match(mid.players, player1.0 as int, player2.0 as int, *result),
            ..mid
        }));
        Ok(closed)
    }

    /// The current rating of a player, after closing the periods due at
    /// `now`, with the number of periods closed. An unknown handle is
    /// refused before anything changes.
    pub fn player_rating_at<F: Fn(R, &Vec<Evidence<R>>) -> Option<R>>(
        &mut self,
        player: PlayerHandle,
        now: u64,
        update: &F,
    ) -> (r: Result<(R, u64), EngineError>)
        requires
            old(self).wf(),
            forall|rating: R, ev: &Vec<Evidence<R>>| call_requires(*update, (rating, ev)),
        ensures
            final(self).wf(),
            player.0 >= old(self)@.players.len() ==> {
                &&& r == Err::<(R, u64), EngineError>(EngineError::UnknownPlayer)
                &&& final(self)@ == old(self)@
            },
            r is Ok ==> {
                &&& r->Ok_0.1 == due_at(old(self)@, now as nat)
                &&& caught_up(*update, old(self)@, final(self)@, now as nat)
                &&& r->Ok_0.0 == final(self)@.players[player.0 as int].rating
            },
            r is Err && player.0 < old(self)@.players.len() ==> {
                &&& r->Err_0 == EngineError::NonConvergent
                &&& stalled(*update, old(self)@, final(self)@, now as nat)
            },
    {
        if !self.store.contains(player) {
            return Err(EngineError::UnknownPlayer);
        }
        let closed = match self.maybe_close_rating_periods_at(now, update) {
            Ok(k) => k,
            Err(e) => {
                return Err(e);
            },
        };
        match self.store.rating(player) {
            Ok(x) => Ok((x, closed)),
            Err(e) => Err(e),
        }
    }

    /// The handles of all registered players, in order.
    pub fn player_handles(&self) -> (hs: Vec<PlayerHandle>)
        ensures
            hs@.len() == self@.players.len(),
            forall|i: int| 0 <= i < hs@.len() ==> (#[trigger] hs@[i]).0 == i,
    {
        let n = self.store.len();
        let mut hs: Vec<PlayerHandle> = Vec::new();
        let mut i: usize = 0;
        while i < n
            invariant
                n == self@.players.len(),
                i <= n,
                hs@.len() == i,
                forall|j: int| 0 <= j < i ==> (#[trigger] hs@[j]).0 == j,
            decreases n - i,
        {
            hs.push(PlayerHandle(i));
            i = i + 1;
        }
        hs
    }
}

/// `c` whole periods of length `d` fit in `x` if `c` is at most `x / d`.
proof fn lemma_periods_fit(x: nat, d: nat, c: nat)
    requires
        d > 0,
        c <= x / d,
    ensures
        c * d <= x,
{
    assert(c * d <= (x / d) * d) by (nonlinear_arith)
        requires
            c <= x / d,
            d > 0,
    ;
    vstd::arithmetic::div_mod::lemma_fundamental_div_mod(x as int, d as int);
    assert((x / d) * d == d * (x / d)) by (nonlinear_arith);
}

} // verus!
