//! One key's state behind its lock, and the guard that brackets one access.

use crate::ecs_access_point::state::{Access, AccessView, AccessorState};
use crate::ecs_access_point::{AccessKey, ECSAccessPoint};
use crate::sync::{guarded, lock, notify_all, peek};
use specs::World;
use std::sync::{Arc, Condvar, Mutex, MutexGuard};
use vstd::prelude::*;

verus! {

/// `Condvar::wait_while`: gives the lock up and sleeps until the state behind
/// it no longer blocks a request of kind `want`, then returns with the lock
/// held again, together with a copy of the state it found on waking. While the
/// state blocks the request at a wake-up, it goes back to sleep.
///
/// The call does not return before some other thread has changed the state so
/// that the request is admitted. It panics if the lock was poisoned while this
/// thread slept, which takes a panic in a thread that holds the lock: the
/// functions of this crate hold it only for their own code.
#[verifier::external_body]
fn wait_until<'a>(cvar: &Condvar, guard: MutexGuard<'a, AccessorState>, want: Access) -> (woken: (
    MutexGuard<'a, AccessorState>,
    AccessorState,
))
    ensures
        woken.1@.admits(want),
{
    let guard = cvar.wait_while(guard, |state: &mut AccessorState| state.blocks(want)).expect(
        "accessor lock poisoned while waiting for access",
    );
    let found = *guard;
    (guard, found)
}

/// What one step did to a key's state: the state it found under the lock and
/// the state it left there.
#[derive(Clone, Copy, Debug)]
pub struct Transition {
    pub before: AccessorState,
    pub after: AccessorState,
}

/// The reader/writer state of one key under its own lock, with the condition
/// variable on which requests for that key wait. An accessor knows the key
/// that it was made for.
pub struct Accessor {
    key: AccessKey,
    mtx: Mutex<AccessorState>,
    cvar: Condvar,
}

impl Accessor {
    /// The key that this accessor was made for.
    pub closed spec fn spec_key(&self) -> AccessKey {
        self.key
    }

    /// A new accessor for `key`, idle.
    pub(crate) fn new(key: AccessKey) -> (accessor: Self)
        ensures
            accessor.key() == key,
    {
        Accessor { key, mtx: Mutex::new(AccessorState::new()), cvar: Condvar::new() }
    }

    /// The key that this accessor was made for.
    #[verifier::when_used_as_spec(spec_key)]
    pub fn key(&self) -> (key: AccessKey)
        ensures
            key == self.spec_key(),
    {
        self.key
    }

    /// A copy of the state as it is at the moment of the call.
    pub fn state(&self) -> (now: AccessorState)
        ensures
            now@.wf(),
    {
        let guard = lock(&self.mtx);
        let now = *peek(&guard);
        proof {
            use_type_invariant(&now);
        }
        now
    }

    /// Waits until a request of kind `want` is admitted, then enters.
    pub(crate) fn acquire(&self, want: Access) -> (step: Transition)
        ensures
            step.before@.wf(),
            step.before@.admits(want),
            step.after@ == step.before@.after(want),
    {
        let guard = lock(&self.mtx);
        let (mut guard, before) = wait_until(&self.cvar, guard, want);
        proof {
            use_type_invariant(&before);
        }
        let mut after = before;
        after.acquire(want);
        let slot = guarded(&mut guard);
        *slot = after;
        Transition { before, after }
    }

    /// Lets one holder go, if there is one, and wakes every waiting request.
    pub(crate) fn release(&self) -> (step: Transition)
        ensures
            step.before@.wf(),
            step.after@ == step.before@.released(),
        opens_invariants none
        no_unwind
    {
        let mut guard = lock(&self.mtx);
        let slot = guarded(&mut guard);
        let before = *slot;
        let mut after = before;
        if before.is_held() {
            after.release();
            *slot = after;
        }
        notify_all(&self.cvar);
        Transition { before, after }
    }
}

/// A caller's hold on one accessor. A guard is made for one request, is used
/// for one acquisition, and lets go when it is dropped.
///
/// The guard holds nothing but the reference to its accessor, so a drop
/// releases by the accessor's state alone. Dropped without having entered, a
/// guard releases nothing while the key is idle, but would let go the hold of
/// another guard while there is one: every guard has to enter before it is
/// dropped.
pub struct AccessGuard(Arc<Accessor>);

impl View for AccessGuard {
    type V = Accessor;

    closed spec fn view(&self) -> Accessor {
        *self.0
    }
}

impl AccessGuard {
    /// A guard on the given accessor. Nothing is held yet.
    pub(crate) fn new(accessor: Arc<Accessor>) -> (guard: Self)
        ensures
            guard@ == *accessor,
    {
        AccessGuard(accessor)
    }

    /// Blocks until no writer holds the key and then enters as a reader:
    /// writing is refused until the last reader has left.
    pub fn acquire_read(&self) -> (step: Transition)
        ensures
            step.before@.wf(),
            step.before@.admits(Access::Read),
            step.after@ == step.before@.after_read(),
    {
        self.0.acquire(Access::Read)
    }

    /// Blocks until nobody holds the key and then enters as the writer:
    /// reading and writing are refused until the guard is dropped.
    pub fn acquire_write(&self) -> (step: Transition)
        ensures
            step.before@ == AccessView::idle(),
            step.after@ == AccessView::exclusive(),
    {
        self.0.acquire(Access::Write)
    }

    /// Read access to the store of `access_point`: enters as a reader, then
    /// fetches a view of the store with `fetch` and returns it.
    pub fn read_access<'a, V, F: FnOnce(&'a World) -> V>(
        &self,
        access_point: &'a ECSAccessPoint,
        fetch: F,
    ) -> (view: V)
        requires
            fetch.requires((&access_point.store(),)),
        ensures
            fetch.ensures((&access_point.store(),), view),
    {
        let _ = self.acquire_read();
        fetch(access_point.ecs())
    }

    /// Write access to the store of `access_point`: enters as the writer, then
    /// fetches a view of the store with `fetch` and returns it.
    pub fn write_access<'a, V, F: FnOnce(&'a World) -> V>(
        &self,
        access_point: &'a ECSAccessPoint,
        fetch: F,
    ) -> (view: V)
        requires
            fetch.requires((&access_point.store(),)),
        ensures
            fetch.ensures((&access_point.store(),), view),
    {
        let _ = self.acquire_write();
        fetch(access_point.ecs())
    }
}

impl std::ops::Deref for AccessGuard {
    type Target = Accessor;

    /// The accessor that this guard refers to.
    fn deref(&self) -> (accessor: &Accessor)
        ensures
            *accessor == self@,
    {
        &self.0
    }
}

impl Drop for AccessGuard {
    /// Lets go of the accessor and wakes the requests that wait for it.
    fn drop(&mut self)
        opens_invariants none
        no_unwind
    {
        let _ = self.0.release();
    }
}

} // verus!
