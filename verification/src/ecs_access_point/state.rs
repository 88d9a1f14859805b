//! The reader/writer state of one resource key, and its three transitions.
//!
//! Per key there is a count of readers and two flags. Conceptually a key is
//! idle (nobody holds it), shared by `n >= 1` readers, or held exclusively by
//! one writer; [`AccessView::wf`] says which combinations of count and flags
//! stand for these.

use vstd::prelude::*;

verus! {

/// The kind of access a caller asks for.
#[derive(Clone, Copy, Debug, PartialEq, Eq)]
pub enum Access {
    Read,
    Write,
}

/// The mathematical content of an [`AccessorState`].
pub struct AccessView {
    pub readers: nat,
    pub read_allowed: bool,
    pub write_allowed: bool,
}

impl AccessView {
    /// Nobody holds the key.
    pub open spec fn idle() -> AccessView {
        AccessView { readers: 0, read_allowed: true, write_allowed: true }
    }

    /// `n` readers hold the key.
    pub open spec fn shared(n: nat) -> AccessView {
        AccessView { readers: n, read_allowed: true, write_allowed: false }
    }

    /// One writer holds the key.
    pub open spec fn exclusive() -> AccessView {
        AccessView { readers: 0, read_allowed: false, write_allowed: false }
    }

    /// Writing is allowed exactly when there is no reader and no writer.
    /// Reading is refused exactly while a writer holds the key, and then there
    /// is no reader.
    pub open spec fn wf(self) -> bool {
        &&& self.write_allowed <==> (self.read_allowed && self.readers == 0)
        &&& !self.read_allowed ==> self.readers == 0
    }

    /// Somebody, reader or writer, holds the key.
    pub open spec fn held(self) -> bool {
        !self.write_allowed
    }

    /// A writer holds the key.
    pub open spec fn writer_active(self) -> bool {
        !self.read_allowed
    }

    /// A request of this kind may proceed now. A reader also needs room in the
    /// counter.
    pub open spec fn admits(self, want: Access) -> bool {
        match want {
            Access::Read => self.read_allowed && self.readers < usize::MAX,
            Access::Write => self.write_allowed,
        }
    }

    /// The state once one more reader has entered.
    pub open spec fn after_read(self) -> AccessView {
        AccessView { readers: self.readers + 1, read_allowed: true, write_allowed: false }
    }

    /// The state once a writer has entered.
    pub open spec fn after_write(self) -> AccessView {
        AccessView { readers: self.readers, read_allowed: false, write_allowed: false }
    }

    /// The state once a request of this kind has entered.
    pub open spec fn after(self, want: Access) -> AccessView {
        match want {
            Access::Read => self.after_read(),
            Access::Write => self.after_write(),
        }
    }

    /// The state once one holder has left: the writer, if there is one, else
    /// one of the readers.
    pub open spec fn after_release(self) -> AccessView {
        if self.writer_active() {
            AccessView { readers: self.readers, read_allowed: true, write_allowed: true }
        } else {
            AccessView {
                readers: (self.readers - 1) as nat,
                read_allowed: true,
                write_allowed: self.readers == 1,
            }
        }
    }

    /// The state once a guard has been dropped: one holder has left, if there
    /// was one.
    pub open spec fn released(self) -> AccessView {
        if self.held() {
            self.after_release()
        } else {
            self
        }
    }
}

/// Reader count and permission flags of one key. Every value of this type is
/// well formed: the fields are private and each function here keeps
/// [`AccessView::wf`].
#[derive(Clone, Copy, Debug)]
pub struct AccessorState {
    readers: usize,
    read_allowed: bool,
    write_allowed: bool,
}

impl View for AccessorState {
    type V = AccessView;

    closed spec fn view(&self) -> AccessView {
        AccessView {
            readers: self.readers as nat,
            read_allowed: self.read_allowed,
            write_allowed: self.write_allowed,
        }
    }
}

impl AccessorState {
    #[verifier::type_invariant]
    pub open spec fn well_formed(self) -> bool {
        self@.wf()
    }

    /// The idle state: no reader, both kinds of access allowed.
    pub fn new() -> (state: Self)
        ensures
            state@ == AccessView::idle(),
    {
        AccessorState { readers: 0, read_allowed: true, write_allowed: true }
    }

    /// The number of readers that hold the key.
    pub fn readers(&self) -> (n: usize)
        ensures
            n == self@.readers,
            self@.wf(),
        opens_invariants none
        no_unwind
    {
        proof {
            use_type_invariant(self);
        }
        self.readers
    }

    /// Whether a reader may enter, the counter's room left aside.
    pub fn read_allowed(&self) -> (b: bool)
        ensures
            b == self@.read_allowed,
            self@.wf(),
        opens_invariants none
        no_unwind
    {
        proof {
            use_type_invariant(self);
        }
        self.read_allowed
    }

    /// Whether a writer may enter.
    pub fn write_allowed(&self) -> (b: bool)
        ensures
            b == self@.write_allowed,
            self@.wf(),
        opens_invariants none
        no_unwind
    {
        proof {
            use_type_invariant(self);
        }
        self.write_allowed
    }

    /// Whether somebody holds the key.
    pub fn is_held(&self) -> (b: bool)
        ensures
            b == self@.held(),
            self@.wf(),
        opens_invariants none
        no_unwind
    {
        proof {
            use_type_invariant(self);
        }
        !self.write_allowed
    }

    /// Whether a request of this kind has to wait.
    pub fn blocks(&self, want: Access) -> (b: bool)
        ensures
            b == !self@.admits(want),
            self@.wf(),
    {
        proof {
            use_type_invariant(self);
        }
        match want {
            Access::Read => !self.read_allowed || self.readers == usize::MAX,
            Access::Write => !self.write_allowed,
        }
    }

    /// One more reader enters: writing is refused from now on.
    pub fn acquire_read(&mut self)
        requires
            old(self)@.admits(Access::Read),
        ensures
            final(self)@ == old(self)@.after_read(),
            final(self)@.wf(),
    {
        proof {
            use_type_invariant(&*self);
        }
        *self = AccessorState {
            readers: self.readers + 1,
            read_allowed: true,
            write_allowed: false,
        };
    }

    /// A writer enters: reading and writing are refused from now on.
    pub fn acquire_write(&mut self)
        requires
            old(self)@.admits(Access::Write),
        ensures
            final(self)@ == old(self)@.after_write(),
            final(self)@ == AccessView::exclusive(),
    {
        proof {
            use_type_invariant(&*self);
        }
        *self = AccessorState { readers: self.readers, read_allowed: false, write_allowed: false };
    }

    /// A request of the given kind enters.
    pub fn acquire(&mut self, want: Access)
        requires
            old(self)@.admits(want),
        ensures
            final(self)@ == old(self)@.after(want),
            final(self)@.wf(),
    {
        match want {
            Access::Read => self.acquire_read(),
            Access::Write => self.acquire_write(),
        }
    }

    /// One holder leaves. A writer gives both kinds of access back. A reader
    /// takes itself off the count, and the last reader to leave gives write
    /// access back.
    pub fn release(&mut self)
        requires
            old(self)@.held(),
        ensures
            final(self)@ == old(self)@.after_release(),
            final(self)@.wf(),
        opens_invariants none
        no_unwind
    {
        proof {
            use_type_invariant(&*self);
        }
        if !self.read_allowed {
            *self = AccessorState { readers: self.readers, read_allowed: true, write_allowed: true };
        } else {
            let left: usize = self.readers - 1;
            *self = AccessorState { readers: left, read_allowed: true, write_allowed: left == 0 };
        }
    }
}

} // verus!
