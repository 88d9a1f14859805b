//! What the transitions of a key's state add up to.
//!
//! The state of a key does not record who holds it: a holder that leaves is
//! told from the flags alone. The laws below count the holders on the side, by
//! the events that happened, and show that flags and count never part.
//!
//! The laws speak of guards that are used as they are meant to be: made for
//! one request, entered once, then dropped. A guard that has not entered may
//! be dropped while nobody holds the key. Dropped while somebody does, it
//! would release on that holder's behalf; such a history is not lawful.

use crate::ecs_access_point::state::{Access, AccessView};
use vstd::prelude::*;

verus! {

/// Something a caller does to a key.
pub enum Event {
    /// A reader enters.
    EnterRead,
    /// A writer enters.
    EnterWrite,
    /// A reader drops its guard.
    LeaveRead,
    /// The writer drops its guard.
    LeaveWrite,
    /// A guard that has not entered is dropped.
    DropUnused,
}

/// The guards that are active on a key, by kind.
pub struct Holders {
    pub readers: nat,
    pub writers: nat,
}

impl Holders {
    /// No guard is active.
    pub open spec fn none() -> Holders {
        Holders { readers: 0, writers: 0 }
    }

    /// The active guards once the event has happened.
    pub open spec fn after(self, event: Event) -> Holders {
        match event {
            Event::EnterRead => Holders { readers: self.readers + 1, writers: self.writers },
            Event::EnterWrite => Holders { readers: self.readers, writers: self.writers + 1 },
            Event::LeaveRead => Holders {
                readers: (self.readers - 1) as nat,
                writers: self.writers,
            },
            Event::LeaveWrite => Holders {
                readers: self.readers,
                writers: (self.writers - 1) as nat,
            },
            Event::DropUnused => self,
        }
    }
}

/// Whether the event can happen: a request enters only where the state admits
/// it, a guard that leaves has entered before, and a guard that has not is
/// dropped only while nobody holds the key.
pub open spec fn may_happen(state: AccessView, holders: Holders, event: Event) -> bool {
    match event {
        Event::EnterRead => state.admits(Access::Read),
        Event::EnterWrite => state.admits(Access::Write),
        Event::LeaveRead => holders.readers > 0,
        Event::LeaveWrite => holders.writers > 0,
        Event::DropUnused => holders == Holders::none(),
    }
}

/// The state once the event has happened. A guard that is dropped releases,
/// whatever it held.
pub open spec fn state_after_event(state: AccessView, event: Event) -> AccessView {
    match event {
        Event::EnterRead => state.after_read(),
        Event::EnterWrite => state.after_write(),
        Event::LeaveRead => state.released(),
        Event::LeaveWrite => state.released(),
        Event::DropUnused => state.released(),
    }
}

/// The state of a key after a history of events, from idle.
pub open spec fn state_after(history: Seq<Event>) -> AccessView
    decreases history.len(),
{
    if history.len() == 0 {
        AccessView::idle()
    } else {
        state_after_event(state_after(history.drop_last()), history.last())
    }
}

/// The active guards after a history of events, from none.
pub open spec fn holders_after(history: Seq<Event>) -> Holders
    decreases history.len(),
{
    if history.len() == 0 {
        Holders::none()
    } else {
        holders_after(history.drop_last()).after(history.last())
    }
}

/// Each event of the history could happen when it did.
pub open spec fn lawful(history: Seq<Event>) -> bool
    decreases history.len(),
{
    history.len() == 0 || {
        &&& lawful(history.drop_last())
        &&& may_happen(
            state_after(history.drop_last()),
            holders_after(history.drop_last()),
            history.last(),
        )
    }
}

/// The state tells the truth about the guards: it counts the readers, refuses
/// readers exactly while a writer is active, and admits a writer exactly while
/// nobody is. There is at most one writer, and no reader beside a writer.
pub open spec fn agrees(state: AccessView, holders: Holders) -> bool {
    &&& state.wf()
    &&& state.readers == holders.readers
    &&& state.read_allowed <==> holders.writers == 0
    &&& state.write_allowed <==> (holders.writers == 0 && holders.readers == 0)
    &&& holders.writers <= 1
    &&& holders.writers == 1 ==> holders.readers == 0
}

/// An event that can happen keeps state and guards in agreement. In
/// particular a release takes the right kind of holder off the books, though
/// it is not told which kind left.
pub proof fn lemma_event_keeps_agreement(state: AccessView, holders: Holders, event: Event)
    requires
        agrees(state, holders),
        may_happen(state, holders, event),
    ensures
        agrees(state_after_event(state, event), holders.after(event)),
{
}

/// Mutual exclusion. After any lawful history at most one write guard is
/// active on the key, and while it is, no read guard is; any number of read
/// guards may be active together. The state agrees with the guards
/// throughout.
pub proof fn lemma_mutual_exclusion(history: Seq<Event>)
    requires
        lawful(history),
    ensures
        agrees(state_after(history), holders_after(history)),
        holders_after(history).writers <= 1,
        holders_after(history).writers == 1 ==> holders_after(history).readers == 0,
    decreases history.len(),
{
    if history.len() > 0 {
        lemma_mutual_exclusion(history.drop_last());
        lemma_event_keeps_agreement(
            state_after(history.drop_last()),
            holders_after(history.drop_last()),
            history.last(),
        );
    }
}

/// While a write guard is active, neither a reader nor a second writer can
/// enter; while a read guard is active, no writer can.
pub proof fn lemma_holders_exclude(history: Seq<Event>)
    requires
        lawful(history),
    ensures
        holders_after(history).writers > 0 ==> !state_after(history).admits(Access::Read)
            && !state_after(history).admits(Access::Write),
        holders_after(history).readers > 0 ==> !state_after(history).admits(Access::Write),
{
    lemma_mutual_exclusion(history);
}

/// A history in which `n` readers enter, one after the other.
pub open spec fn readers_enter(n: nat) -> Seq<Event> {
    Seq::new(n, |i: int| Event::EnterRead)
}

/// Any number of readers that the counter has room for can hold a key
/// together: none of them has to wait for another.
pub proof fn lemma_readers_enter_together(n: nat)
    requires
        n <= usize::MAX,
    ensures
        lawful(readers_enter(n)),
        holders_after(readers_enter(n)) == (Holders { readers: n, writers: 0 }),
        state_after(readers_enter(n)) == if n == 0 {
            AccessView::idle()
        } else {
            AccessView::shared(n)
        },
    decreases n,
{
    if n > 0 {
        lemma_readers_enter_together((n - 1) as nat);
        assert(readers_enter(n).drop_last() =~= readers_enter((n - 1) as nat));
    }
}

/// The release of the writer gives both kinds of access back: the key is idle
/// again.
pub proof fn lemma_writer_release_restores_idle(state: AccessView)
    requires
        state.wf(),
        state.writer_active(),
    ensures
        state.after_release() == AccessView::idle(),
{
}

/// The release of one reader takes exactly one off the count and leaves
/// reading allowed. Writing is allowed again if and only if that reader was
/// the last.
pub proof fn lemma_reader_release_counts_down(state: AccessView)
    requires
        state.wf(),
        state.held(),
        !state.writer_active(),
    ensures
        state.after_release().readers == state.readers - 1,
        state.after_release().read_allowed,
        state.after_release().write_allowed <==> state.readers == 1,
        state.after_release().wf(),
{
}

/// The state after `count` releases in a row.
pub open spec fn after_releases(state: AccessView, count: nat) -> AccessView
    decreases count,
{
    if count == 0 {
        state
    } else {
        after_releases(state, (count - 1) as nat).after_release()
    }
}

/// Of `n` readers that hold a key together, each one that leaves takes one
/// off the count, and only the last one gives write access back.
pub proof fn lemma_last_reader_reopens_writing(n: nat, left: nat)
    requires
        1 <= n,
        left <= n,
    ensures
        after_releases(AccessView::shared(n), left).readers == n - left,
        after_releases(AccessView::shared(n), left).read_allowed,
        after_releases(AccessView::shared(n), left).write_allowed <==> left == n,
        left == n ==> after_releases(AccessView::shared(n), left) == AccessView::idle(),
    decreases left,
{
    if left > 0 {
        lemma_last_reader_reopens_writing(n, (left - 1) as nat);
    }
}

} // verus!
