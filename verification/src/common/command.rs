//! Command pattern: commands are stored when they are sent and carried out
//! later, by whoever owns the store.

use crate::sync::{guarded, lock, peek};
use std::sync::Mutex;
use vstd::prelude::*;

verus! {

/// Something that takes commands of type `T`, typically an enum with one
/// variant per command. An implementor keeps a [`CommandQueue`], and a
/// [`CommandHistory`] if it can undo.
pub trait Commandable<T> where T: PartialEq + Eq + Copy + Clone {
    /// Stores the command in the queue.
    fn send(&self, command: T);

    /// Carries out the first command of the queue.
    fn execute_one(&self);

    /// Carries out all commands of the queue.
    fn execute_all(&self);

    /// Takes back the last command that was carried out.
    fn undo(&self) {
    }
}

/// Takes the oldest command out of the queue, if there is one. The others
/// keep their order.
pub fn take_head<T>(queue: &mut Vec<T>) -> (cmd: Option<T>)
    ensures
        old(queue)@.len() == 0 ==> cmd is None && final(queue)@ == old(queue)@,
        old(queue)@.len() > 0 ==> cmd == Some(old(queue)@[0]) && final(queue)@ == old(
            queue,
        )@.drop_first(),
{
    if !queue.is_empty() {
        let cmd = queue.remove(0);
        assert(queue@ =~= old(queue)@.drop_first());
        return Some(cmd);
    }
    None
}

/// Takes the newest command out of the queue, if there is one.
pub fn take_tail<T>(queue: &mut Vec<T>) -> (cmd: Option<T>)
    ensures
        old(queue)@.len() == 0 ==> cmd is None && final(queue)@ == old(queue)@,
        old(queue)@.len() > 0 ==> cmd == Some(old(queue)@.last()) && final(queue)@ == old(
            queue,
        )@.drop_last(),
{
    if !queue.is_empty() {
        return queue.pop();
    }
    None
}

/// A copy of the commands in the queue, in their order.
pub fn copy_commands<T: Copy>(queue: &Vec<T>) -> (copy: Vec<T>)
    ensures
        copy@ == queue@,
{
    let mut copy: Vec<T> = Vec::new();
    let mut i: usize = 0;
    while i < queue.len()
        invariant
            i <= queue@.len(),
            copy@ == queue@.take(i as int),
        decreases queue@.len() - i,
    {
        copy.push(queue[i]);
        assert(queue@.take(i + 1) =~= queue@.take(i as int).push(queue@[i as int]));
        i += 1;
    }
    assert(queue@.take(queue@.len() as int) =~= queue@);
    copy
}

/// Commands that wait to be carried out. The queue has a lock of its own, so
/// that any thread with a reference to it can send. The lock is held only
/// inside the functions below, and only while code of this crate and of the
/// standard library runs.
#[verifier::reject_recursive_types(T)]
pub struct CommandQueue<T> {
    queue: Mutex<Vec<T>>,
}

impl<T> CommandQueue<T> {
    /// An empty queue.
    pub fn new() -> (queue: Self) {
        CommandQueue { queue: Mutex::new(Vec::new()) }
    }

    /// Appends a command.
    pub fn push(&self, cmd: T) {
        let mut queue_guard = lock(&self.queue);
        guarded(&mut queue_guard).push(cmd);
    }

    /// Takes the oldest command out, if the queue has one: first in, first
    /// out.
    pub fn head(&self) -> (cmd: Option<T>) {
        let mut queue_guard = lock(&self.queue);
        take_head(guarded(&mut queue_guard))
    }

    /// Takes the newest command out, if the queue has one: last in, first out.
    pub fn tail(&self) -> (cmd: Option<T>) {
        let mut queue_guard = lock(&self.queue);
        take_tail(guarded(&mut queue_guard))
    }

    /// Throws all commands away. They are taken out under the lock and
    /// dropped after it is given up.
    pub fn clear(&self) {
        let mut thrown: Vec<T> = Vec::new();
        let mut queue_guard = lock(&self.queue);
        std::mem::swap(guarded(&mut queue_guard), &mut thrown);
    }

    /// The commands that are in the queue now, for reading them in their
    /// order. The result is a copy: the queue is not locked while it lives, and
    /// what is sent or taken out later does not show in it.
    pub fn into_iter(&self) -> (iter: CommandQueueIter<T>) where T: Copy {
        let queue_guard = lock(&self.queue);
        CommandQueueIter { commands: copy_commands(peek(&queue_guard)) }
    }
}

/// The commands that a queue held at one moment, oldest first.
pub struct CommandQueueIter<T> {
    commands: Vec<T>,
}

impl<T> View for CommandQueueIter<T> {
    type V = Seq<T>;

    closed spec fn view(&self) -> Seq<T> {
        self.commands@
    }
}

impl<T> CommandQueueIter<T> {
    /// The commands, oldest first.
    pub fn as_slice(&self) -> (commands: &[T])
        ensures
            commands@ == self@,
    {
        self.commands.as_slice()
    }
}

/// The commands that were carried out, newest last, for undoing them. The lock
/// is held only inside the functions below.
#[verifier::reject_recursive_types(T)]
pub struct CommandHistory<T> {
    history: Mutex<Vec<T>>,
}

impl<T> CommandHistory<T> {
    /// An empty history.
    pub fn new() -> (history: Self) {
        CommandHistory { history: Mutex::new(Vec::new()) }
    }

    /// Records a command as carried out.
    pub fn push(&mut self, cmd: T) {
        let mut history = lock(&self.history);
        guarded(&mut history).push(cmd);
    }

    /// Takes the command that was carried out last, if there is one.
    pub fn pop(&mut self) -> (cmd: Option<T>) {
        let mut history = lock(&self.history);
        take_tail(guarded(&mut history))
    }
}

} // verus!
