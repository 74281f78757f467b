//! A lock-protected handle to one queue, shared by concurrent callers.
//!
//! The functional contract lives on [`crate::queue::MessageQueue`]; this
//! module only adds mutual exclusion. Each operation acquires the lock,
//! performs exactly one queue operation on the value it holds, and releases
//! the lock: at most one mutation of the sequence is in flight at a time,
//! and no caller observes a partially applied one. The lock is vstd's
//! verified reader-writer lock, so nothing here is taken on trust.

use vstd::prelude::*;
use vstd::rwlock::RwLock;
use crate::queue::Message;
use crate::queue::MessageQueue;

verus! {

/// A queue behind an exclusive-access lock. Created once, empty, at process
/// start and handed by shared reference to every request-handling task.
pub struct SharedQueue {
    lock: RwLock<MessageQueue, spec_fn(MessageQueue) -> bool>,
}

impl SharedQueue {
    /// Any queue value may be stored under the lock: the queue keeps no
    /// invariant beyond its sequence.
    #[verifier::type_invariant]
    spec fn wf(&self) -> bool {
        forall|q: MessageQueue| self.lock.inv(q)
    }

    /// Creates a handle around an empty queue.
    pub fn new() -> (q: SharedQueue) {
        let empty = MessageQueue::new();
        SharedQueue { lock: RwLock::new(empty, Ghost(|q: MessageQueue| true)) }
    }

    /// Appends a message holding `payload` to the shared queue, atomically,
    /// and returns its fresh identifier. The state reached is related to the
    /// state found by [`MessageQueue::enqueue`]'s contract; with other
    /// callers present, which state is found is decided by lock order alone.
    pub fn enqueue(&self, payload: String) -> (id: u128) {
        proof {
            use_type_invariant(self);
        }
        let (mut q, handle) = self.lock.acquire_write();
        let id = q.enqueue(payload);
        handle.release_write(q);
        id
    }

    /// Removes and returns the head of the shared queue, atomically; `None`
    /// when the queue was empty at the moment the lock was held. Two calls
    /// never return the same message: the one that removed it under the lock
    /// is the only one that holds it. The state reached is related to the
    /// state found by [`MessageQueue::dequeue`]'s contract.
    pub fn dequeue(&self) -> (r: Option<Message>) {
        proof {
            use_type_invariant(self);
        }
        let (mut q, handle) = self.lock.acquire_write();
        let r = q.dequeue();
        handle.release_write(q);
        r
    }
}

} // verus!
