//! The LED store: a fixed-size sequence of LED cells plus a generation
//! counter that increases by exactly one on every successful write and never
//! otherwise, so observers can detect changes by polling a single integer.
//!
//! Timestamps are plain unix seconds (`i64`); the wall clock itself is read
//! through a small trusted wrapper, and every state change is specified
//! exactly by [`spec_set`] over whatever instant that wrapper returned.

use vstd::prelude::*;

use crate::types::Color;

verus! {

/// One addressable cell: its color and the instant (unix seconds) of the
/// last successful write. `last_updated` is set by the store, never by the
/// caller.
#[derive(Clone, Copy, Debug, PartialEq, Eq, Structural)]
pub struct Led {
    pub color: Color,
    pub last_updated: i64,
}

/// A consistent point-in-time copy of the store: the cells exactly as they
/// stood at the returned generation.
pub struct LedRepoSnapshot {
    pub generation: usize,
    pub leds: Vec<Led>,
}

/// The error a store operation returns when the LED id does not exist.
#[derive(Clone, Copy, Debug, PartialEq, Eq, Structural)]
pub enum LedRepoError {
    OutOfBounds(usize),
}

/// The store itself. The fields are private: all access goes through the
/// operations below, whose contracts speak of the abstract [`RepoModel`].
pub struct LedRepo {
    generation: usize,
    leds: Vec<Led>,
}

/// The mathematical model of a store: a generation count and the sequence
/// of cells.
pub ghost struct RepoModel {
    pub generation: nat,
    pub leds: Seq<Led>,
}

impl View for LedRepo {
    type V = RepoModel;

    closed spec fn view(&self) -> RepoModel {
        RepoModel { generation: self.generation as nat, leds: self.leds@ }
    }
}

/// The model of a freshly constructed store: generation 0, one cell per
/// initial color, every cell stamped with the one instant `now`.
pub open spec fn spec_new(colors: Seq<Color>, now: i64) -> RepoModel {
    RepoModel {
        generation: 0,
        leds: Seq::new(colors.len(), |i: int| Led { color: colors[i], last_updated: now }),
    }
}

/// What one successful `set` does to the model: cell `id` is replaced by the
/// new color stamped with `now`, and the generation rises by exactly one.
pub open spec fn spec_set(m: RepoModel, id: usize, color: Color, now: i64) -> RepoModel
    recommends
        id < m.leds.len(),
{
    RepoModel {
        generation: m.generation + 1,
        leds: m.leds.update(id as int, Led { color, last_updated: now }),
    }
}

/// One write in a history of `set` calls, for reasoning about whole
/// sequences of writes.
pub ghost struct SetCall {
    pub id: usize,
    pub color: Color,
    pub now: i64,
}

/// The model after a sequence of `set` calls has been applied in order.
pub open spec fn apply_sets(m: RepoModel, calls: Seq<SetCall>) -> RepoModel
    decreases calls.len(),
{
    if calls.len() == 0 {
        m
    } else {
        spec_set(apply_sets(m, calls.drop_last()), calls.last().id, calls.last().color, calls.last().now)
    }
}

/// A `set` never changes the number of cells.
pub proof fn lemma_set_preserves_len(m: RepoModel, id: usize, color: Color, now: i64)
    requires
        id < m.leds.len(),
    ensures
        spec_set(m, id, color, now).leds.len() == m.leds.len(),
{
}

/// Monotonic generation: however `set` calls are ordered, the generation
/// after the `k`-th call equals the generation before the first call
/// plus `k`. Reads never change it, and the store linearizes all writes,
/// so this covers every interleaving of writers.
pub proof fn lemma_generation_counts_sets(m: RepoModel, calls: Seq<SetCall>)
    ensures
        apply_sets(m, calls).generation == m.generation + calls.len(),
    decreases calls.len(),
{
    if calls.len() > 0 {
        lemma_generation_counts_sets(m, calls.drop_last());
    }
}

/// Reads the wall clock as unix seconds.
///
/// Relies on `chrono::Utc::now`, with `chrono::DateTime::timestamp`
/// converting the instant to a plain integer. The result depends on the
/// moment of the call, so nothing is promised of its value.
#[verifier::external_body]
fn now_unix_seconds() -> i64 {
    chrono::Utc::now().timestamp()
}

impl LedRepo {
    /// A fresh store: generation 0, one cell per initial color, every cell
    /// stamped with a single read of the clock.
    pub fn new(initial_colors: Vec<Color>) -> (repo: Self)
        ensures
            exists|now: i64| repo@ == spec_new(initial_colors@, now),
    {
        let now = now_unix_seconds();
        Self::new_at(initial_colors, now)
    }

    /// A fresh store whose cells are all stamped with the given instant.
    pub fn new_at(initial_colors: Vec<Color>, now: i64) -> (repo: Self)
        ensures
            repo@ == spec_new(initial_colors@, now),
    {
        let mut leds: Vec<Led> = Vec::new();
        let mut i: usize = 0;
        while i < initial_colors.len()
            invariant
                i <= initial_colors@.len(),
                leds@.len() == i,
                forall|j: int| 0 <= j < i
                    ==> #[trigger] leds@[j] == (Led { color: initial_colors@[j], last_updated: now }),
            decreases initial_colors@.len() - i,
        {
            leds.push(Led { color: initial_colors[i], last_updated: now });
            i = i + 1;
        }
        let repo = LedRepo { generation: 0, leds };
        proof {
            assert(repo@.leds =~= spec_new(initial_colors@, now).leds);
        }
        repo
    }

    /// Rebuilds a store from a persisted snapshot, continuing at its
    /// generation.
    pub fn from_snapshot(value: LedRepoSnapshot) -> (repo: Self)
        ensures
            repo@.generation == value.generation,
            repo@.leds == value.leds@,
    {
        LedRepo { generation: value.generation, leds: value.leds }
    }

    /// The cell at `id`, or `None` exactly when `id` is out of bounds.
    /// No side effects.
    pub fn get(&self, id: usize) -> (r: Option<Led>)
        ensures
            match r {
                Some(led) => id < self@.leds.len() && led == self@.leds[id as int],
                None => id >= self@.leds.len(),
            },
    {
        if id < self.leds.len() {
            Some(self.leds[id])
        } else {
            None
        }
    }

    /// Writes `color` to cell `id`, stamping it with the current clock, and
    /// bumps the generation by exactly one; fails with `OutOfBounds` — and
    /// changes nothing — exactly when `id` does not exist. Returns the
    /// updated cell.
    pub fn set(&mut self, id: usize, color: Color) -> (r: Result<Led, LedRepoError>)
        requires
            old(self)@.generation + 1 <= usize::MAX,
        ensures
            id < old(self)@.leds.len() ==> {
                &&& exists|now: i64| final(self)@ == spec_set(old(self)@, id, color, now)
                &&& r == Ok::<Led, LedRepoError>(final(self)@.leds[id as int])
            },
            id >= old(self)@.leds.len() ==> {
                &&& final(self)@ == old(self)@
                &&& r == Err::<Led, LedRepoError>(LedRepoError::OutOfBounds(id))
            },
    {
        let now = now_unix_seconds();
        self.set_at(id, color, now)
    }

    /// The deterministic body of [`Self::set`]: the same write with the
    /// timestamp supplied by the caller.
    pub fn set_at(&mut self, id: usize, color: Color, now: i64) -> (r: Result<Led, LedRepoError>)
        requires
            old(self)@.generation + 1 <= usize::MAX,
        ensures
            id < old(self)@.leds.len() ==> {
                &&& final(self)@ == spec_set(old(self)@, id, color, now)
                &&& r == Ok::<Led, LedRepoError>(final(self)@.leds[id as int])
            },
            id >= old(self)@.leds.len() ==> {
                &&& final(self)@ == old(self)@
                &&& r == Err::<Led, LedRepoError>(LedRepoError::OutOfBounds(id))
            },
    {
        if id < self.leds.len() {
            let updated = Led { color, last_updated: now };
            self.leds.set(id, updated);
            self.generation = self.generation + 1;
            Ok(updated)
        } else {
            Err(LedRepoError::OutOfBounds(id))
        }
    }

    /// The current generation: a cheap read for change polling, no side
    /// effects.
    pub fn generation(&self) -> (g: usize)
        ensures
            g == self@.generation,
    {
        self.generation
    }

    /// An internally consistent copy: the returned cells are the store's
    /// state as of the returned generation, exactly.
    pub fn snapshot(&self) -> (s: LedRepoSnapshot)
        ensures
            s.generation == self@.generation,
            s.leds@ == self@.leds,
    {
        let leds = self.leds.clone();
        proof {
            assert(leds@ =~= self.leds@);
        }
        LedRepoSnapshot { generation: self.generation, leds }
    }
}

} // verus!
