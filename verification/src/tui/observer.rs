//! Ids for the observers of a subject, each unique for the session.

use crate::sync::{guarded, lock};
use std::collections::HashSet;
use std::sync::Mutex;
use vstd::prelude::*;

verus! {

/// `rand::random::<usize>()`: a number drawn from the thread's random
/// generator. Nothing is claimed of the number.
#[verifier::external_body]
fn random_id() -> (id: usize) {
    rand::random()
}

/// Takes `id` if it is free: an id that was not in use is in use from now on,
/// and one that was is refused.
pub fn claim_id(used_ids: &mut HashSet<usize>, id: usize) -> (fresh: bool)
    ensures
        fresh == !old(used_ids)@.contains(id),
        final(used_ids)@ == old(used_ids)@.insert(id),
{
    let fresh = !used_ids.contains(&id);
    if fresh {
        used_ids.insert(id);
    }
    assert(used_ids@ =~= old(used_ids)@.insert(id));
    fresh
}

/// Hands out observer ids, none of them twice.
pub struct IdGenerator {
    used_ids: Mutex<HashSet<usize>>,
}

impl IdGenerator {
    /// A generator that has handed out no id yet.
    pub fn new() -> (generator: Self) {
        IdGenerator { used_ids: Mutex::new(HashSet::new()) }
    }

    /// Takes `id` if this generator has not handed it out yet.
    pub fn claim(&self, id: usize) -> (fresh: bool) {
        let mut used_ids = lock(&self.used_ids);
        claim_id(guarded(&mut used_ids), id)
    }

    /// Draws a random id and takes it if it is free. The caller draws again
    /// where it was not.
    pub fn draw_observer_id(&self) -> (drawn: Option<usize>) {
        let id = random_id();
        if self.claim(id) {
            Some(id)
        } else {
            None
        }
    }
}

} // verus!
