//! The decision logic of the periodic persistence task: a snapshot is
//! handed to the persistence collaborator only when the generation has
//! advanced since the last attempt. The timer, the collaborator and the
//! loop itself live outside the library.

use vstd::prelude::*;

verus! {

/// The persistence task's state: the generation it last attempted to save.
#[derive(Clone, Copy, Debug, PartialEq, Eq, Structural)]
pub struct PersistTracker {
    pub previous_generation: usize,
}

impl PersistTracker {
    /// A tracker that treats `generation` as already saved, so the first
    /// tick saves only after a further write.
    pub fn new(generation: usize) -> (t: Self)
        ensures
            t == (PersistTracker { previous_generation: generation }),
    {
        Self { previous_generation: generation }
    }

    /// One timer tick against the store's current generation: says whether
    /// to save a snapshot now, and records the generation when it does.
    /// A failed save is not retried as such: the next write advances the
    /// generation again and so triggers the next attempt.
    pub fn tick(&mut self, generation: usize) -> (save: bool)
        ensures
            save == (generation > old(self).previous_generation),
            save ==> *final(self) == (PersistTracker { previous_generation: generation }),
            !save ==> *final(self) == *old(self),
    {
        if generation > self.previous_generation {
            self.previous_generation = generation;
            true
        } else {
            false
        }
    }
}

} // verus!
