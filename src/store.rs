use vstd::prelude::*;
use crate::error::EngineError;
use crate::result::MatchResult;

verus! {

/// An opaque, stable reference to a registered player: the index at which
/// the player was registered. Handles are issued in sequence and never reused.
#[derive(Clone, Copy, Debug, PartialEq, Eq, Structural)]
pub struct PlayerHandle(pub usize);

impl PlayerHandle {
    /// The integer identity of the handle.
    pub fn index(&self) -> (r: usize)
        ensures
            r == self.0,
    {
        self.0
    }
}

/// One piece of match evidence gathered during a period: a snapshot of the
/// opponent's rating when the match was registered, and the result from the
/// holder's point of view.
#[derive(Clone, Copy, Debug)]
pub struct Evidence<R> {
    pub opponent: R,
    pub result: MatchResult,
}

/// What the store knows of one player.
pub struct PlayerView<R> {
    /// The player's current rating.
    pub rating: R,
    /// The number of periods that had closed when the player was registered.
    pub joined: nat,
    /// Evidence gathered since the player's last period close, in order.
    pub pending: Seq<Evidence<R>>,
}

/// The update yields `out` on `rating` and evidence with the contents
/// `evidence`.
pub open spec fn updated_by<R, F: Fn(R, &Vec<Evidence<R>>) -> Option<R>>(
    update: F,
    rating: R,
    evidence: Seq<Evidence<R>>,
    out: Option<R>,
) -> bool {
    exists|v: Vec<Evidence<R>>| v@ == evidence && #[trigger] call_ensures(update, (rating, &v), out)
}

/// `after` is `before` with one period closed for every player: each rating
/// is what the update gave for the player's rating and pending evidence, and
/// every accumulator is empty.
pub open spec fn closes_period<R, F: Fn(R, &Vec<Evidence<R>>) -> Option<R>>(
    update: F,
    before: Seq<PlayerView<R>>,
    after: Seq<PlayerView<R>>,
) -> bool {
    &&& after.len() == before.len()
    &&& forall|i: int|
        0 <= i < before.len() ==> {
            &&& (#[trigger] after[i]).joined == before[i].joined
            &&& after[i].pending == Seq::<Evidence<R>>::empty()
            &&& updated_by(update, before[i].rating, before[i].pending, Some(after[i].rating))
        }
}

struct PlayerRecord<R> {
    rating: R,
    joined: u64,
    pending: Vec<Evidence<R>>,
}

impl<R> PlayerRecord<R> {
    closed spec fn view(&self) -> PlayerView<R> {
        PlayerView { rating: self.rating, joined: self.joined as nat, pending: self.pending@ }
    }
}

/// The append-only registry of players: each player's current rating and
/// the evidence gathered for the period in progress.
pub struct PlayerStore<R> {
    players: Vec<PlayerRecord<R>>,
}

impl<R> View for PlayerStore<R> {
    type V = Seq<PlayerView<R>>;

    closed spec fn view(&self) -> Seq<PlayerView<R>> {
        Seq::new(self.players@.len(), |i: int| self.players@[i].view())
    }
}

impl<R: Copy> PlayerStore<R> {
    /// An empty store.
    pub fn new() -> (s: PlayerStore<R>)
        ensures
            s@ == Seq::<PlayerView<R>>::empty(),
    {
        let s = PlayerStore { players: Vec::new() };
        assert(s@ =~= Seq::<PlayerView<R>>::empty());
        s
    }

    /// The number of registered players.
    pub fn len(&self) -> (n: usize)
        ensures
            n == self@.len(),
    {
        self.players.len()
    }

    /// Whether `handle` was issued by this store.
    pub fn contains(&self, handle: PlayerHandle) -> (b: bool)
        ensures
            b == (handle.0 < self@.len()),
    {
        handle.0 < self.players.len()
    }

    /// Appends a player with the given rating and an empty accumulator,
    /// and returns the next sequential handle.
    pub fn register(&mut self, rating: R, joined: u64) -> (h: PlayerHandle)
        requires
            old(self)@.len() < usize::MAX,
        ensures
            h.0 == old(self)@.len(),
            final(self)@ == old(self)@.push(
                PlayerView { rating, joined: joined as nat, pending: Seq::empty() },
            ),
    {
        let h = PlayerHandle(self.players.len());
        let rec = PlayerRecord { rating, joined, pending: Vec::new() };
        self.players.push(rec);
        assert(self@ =~= old(self)@.push(
            PlayerView { rating, joined: joined as nat, pending: Seq::empty() },
        ));
        h
    }

    /// The current rating of a player.
    pub fn rating(&self, handle: PlayerHandle) -> (r: Result<R, EngineError>)
        ensures
            handle.0 < self@.len() ==> r == Ok::<R, EngineError>(self@[handle.0 as int].rating),
            handle.0 >= self@.len() ==> r == Err::<R, EngineError>(EngineError::UnknownPlayer),
    {
        if handle.0 < self.players.len() {
            Ok(self.players[handle.0].rating)
        } else {
            Err(EngineError::UnknownPlayer)
        }
    }

    /// Appends one piece of evidence to a player's accumulator.
    pub fn record_result(&mut self, handle: PlayerHandle, opponent: R, result: MatchResult) -> (r:
        Result<(), EngineError>)
        ensures
            handle.0 < old(self)@.len() ==> {
                &&& r == Ok::<(), EngineError>(())
                &&& final(self)@ == old(self)@.update(
                    handle.0 as int,
                    PlayerView {
                        pending: old(self)@[handle.0 as int].pending.push(
                            Evidence { opponent, result },
                        ),
                        ..old(self)@[handle.0 as int]
                    },
                )
            },
            handle.0 >= old(self)@.len() ==> {
                &&& r == Err::<(), EngineError>(EngineError::UnknownPlayer)
                &&& final(self)@ == old(self)@
            },
    {
        if handle.0 >= self.players.len() {
            return Err(EngineError::UnknownPlayer);
        }
        let i = handle.0;
        self.players[i].pending.push(Evidence { opponent, result });
        assert(self@ =~= old(self)@.update(
            i as int,
            PlayerView {
                pending: old(self)@[i as int].pending.push(Evidence { opponent, result }),
                ..old(self)@[i as int]
            },
        ));
        Ok(())
    }
    /// Closes one rating period for every player, in handle order. The
    /// update is given each player's rating and pending evidence. If it
    /// yields a rating for every player, each rating is replaced and each
    /// accumulator emptied; if it yields none for some player, nothing is
    /// changed and `NonConvergent` is returned.
    pub fn close_period<F: Fn(R, &Vec<Evidence<R>>) -> Option<R>>(&mut self, update: &F) -> (r:
        Result<(), EngineError>)
        requires
            forall|rating: R, ev: &Vec<Evidence<R>>| call_requires(*update, (rating, ev)),
        ensures
            r is Ok ==> closes_period(*update, old(self)@, final(self)@),
            r is Err ==> {
                &&& r == Err::<(), EngineError>(EngineError::NonConvergent)
                &&& final(self)@ == old(self)@
                &&& exists|i: int|
                    0 <= i < old(self)@.len() && updated_by(
                        *update,
                        #[trigger] old(self)@[i].rating,
                        old(self)@[i].pending,
                        None,
                    )
            },
    {
        let n = self.players.len();
        let mut fresh: Vec<R> = Vec::new();
        let mut i: usize = 0;
        while i < n
            invariant
                n == self.players@.len(),
                i <= n,
                fresh@.len() == i,
                forall|rating: R, ev: &Vec<Evidence<R>>| call_requires(*update, (rating, ev)),
                forall|j: int|
                    0 <= j < i ==> updated_by(
                        *update,
                        self@[j].rating,
                        self@[j].pending,
                        Some(#[trigger] fresh@[j]),
                    ),
            decreases n - i,
        {
            let out = update(self.players[i].rating, &self.players[i].pending);
            assert(updated_by(*update, self@[i as int].rating, self@[i as int].pending, out));
            match out {
                Some(x) => fresh.push(x),
                None => {
                    return Err(EngineError::NonConvergent);
                },
            }
            i = i + 1;
        }
        let ghost before = self@;
        let mut next: Vec<PlayerRecord<R>> = Vec::new();
        let mut k: usize = 0;
        while k < n
            invariant
                n == self.players@.len(),
                n == fresh@.len(),
                self@ == before,
                k <= n,
                next@.len() == k,
                forall|j: int|
                    0 <= j < k ==> (#[trigger] next@[j]).view() == (PlayerView {
                        rating: fresh@[j],
                        joined: before[j].joined,
                        pending: Seq::<Evidence<R>>::empty(),
                    }),
            decreases n - k,
        {
            next.push(
                PlayerRecord { rating: fresh[k], joined: self.players[k].joined, pending: Vec::new() },
            );
            k = k + 1;
        }
        self.players = next;
        assert forall|j: int| 0 <= j < before.len() implies {
            &&& (#[trigger] self@[j]).joined == before[j].joined
            &&& self@[j].pending == Seq::<Evidence<R>>::empty()
            &&& updated_by(*update, before[j].rating, before[j].pending, Some(self@[j].rating))
        } by {
            assert(self@[j] == next@[j].view());
        }
        Ok(())
    }
}

} // verus!
