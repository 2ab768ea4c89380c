//! The operations behind the REST endpoints: get one LED, get all LEDs
//! tagged with their ids, set one LED. The HTTP layer around them only
//! extracts plain arguments and maps the error to a client-error status.

use vstd::prelude::*;

use crate::repo::{Led, LedRepo, LedRepoError, spec_set};
use crate::types::Color;

verus! {

/// The error a request-level operation returns when the LED id does not
/// exist; surfaced to the HTTP caller as a not-found client error.
#[derive(Clone, Copy, Debug, PartialEq, Eq, Structural)]
pub enum LedRouterError {
    NotFound(usize),
}

/// An LED tagged with its id, as the list endpoint returns it.
#[derive(Clone, Copy, Debug, PartialEq, Eq, Structural)]
pub struct WithId {
    pub id: usize,
    pub led: Led,
}

impl WithId {
    pub fn new(id: usize, led: Led) -> (r: Self)
        ensures
            r == (WithId { id, led }),
    {
        Self { id, led }
    }
}

/// The single-LED read: the cell at `id`, or `NotFound` exactly when `id`
/// is out of bounds. No side effects.
pub fn get_led(leds: &LedRepo, id: usize) -> (r: Result<Led, LedRouterError>)
    ensures
        id < leds@.leds.len() ==> r == Ok::<Led, LedRouterError>(leds@.leds[id as int]),
        id >= leds@.leds.len() ==> r == Err::<Led, LedRouterError>(LedRouterError::NotFound(id)),
{
    match leds.get(id) {
        Some(led) => Ok(led),
        None => Err(LedRouterError::NotFound(id)),
    }
}

/// The list read: every cell of one consistent snapshot, tagged with its
/// id, in id order. No side effects.
pub fn get_leds(leds: &LedRepo) -> (r: Vec<WithId>)
    ensures
        r@.len() == leds@.leds.len(),
        forall|i: int| 0 <= i < r@.len()
            ==> #[trigger] r@[i] == (WithId { id: i as usize, led: leds@.leds[i] }),
{
    let snapshot = leds.snapshot();
    let mut out: Vec<WithId> = Vec::new();
    let mut i: usize = 0;
    while i < snapshot.leds.len()
        invariant
            i <= snapshot.leds@.len(),
            snapshot.leds@ == leds@.leds,
            out@.len() == i,
            forall|j: int| 0 <= j < i
                ==> #[trigger] out@[j] == (WithId { id: j as usize, led: leds@.leds[j] }),
        decreases snapshot.leds@.len() - i,
    {
        out.push(WithId::new(i, snapshot.leds[i]));
        i = i + 1;
    }
    out
}

/// The single-LED write: performs the store's `set` and returns the updated
/// cell, or `NotFound` — with the store unchanged — exactly when `id` is
/// out of bounds.
pub fn post_led(leds: &mut LedRepo, id: usize, color: Color) -> (r: Result<Led, LedRouterError>)
    requires
        old(leds)@.generation + 1 <= usize::MAX,
    ensures
        id < old(leds)@.leds.len() ==> {
            &&& exists|now: i64| final(leds)@ == spec_set(old(leds)@, id, color, now)
            &&& r == Ok::<Led, LedRouterError>(final(leds)@.leds[id as int])
        },
        id >= old(leds)@.leds.len() ==> {
            &&& final(leds)@ == old(leds)@
            &&& r == Err::<Led, LedRouterError>(LedRouterError::NotFound(id))
        },
{
    match leds.set(id, color) {
        Ok(led) => Ok(led),
        Err(LedRepoError::OutOfBounds(bad_id)) => Err(LedRouterError::NotFound(bad_id)),
    }
}

} // verus!
