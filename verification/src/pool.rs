//! The worker pool: which handlers are outstanding.
//!
//! Handlers run elsewhere; the pool keeps the membership. A handler is a
//! member from the moment it is spawned until its completion is observed.
//! Members are not told apart, so the pool is its size.

use vstd::prelude::*;

verus! {

/// The result of polling a source once.
#[derive(Debug, PartialEq, Eq)]
pub enum Polled<T> {
    /// The source had a value.
    Ready(T),
    /// The source has nothing yet.
    Pending,
}

/// The membership of the worker pool.
#[derive(Clone, Copy, Debug)]
pub struct WorkerPool {
    members: u64,
}

/// What a poll of the pool's completion source yields, given the pool's size
/// and what the underlying set of handlers reported. An empty pool has
/// nothing to yield, whatever the underlying set says: it is not finished,
/// only idle.
pub open spec fn completion_of<T>(size: nat, polled: Polled<Option<T>>) -> Polled<T> {
    if size == 0 {
        Polled::Pending
    } else {
        match polled {
            Polled::Ready(Some(result)) => Polled::Ready(result),
            _ => Polled::Pending,
        }
    }
}

impl WorkerPool {
    /// The number of handlers outstanding.
    pub closed spec fn view(&self) -> nat {
        self.members as nat
    }

    /// A pool with no handler outstanding.
    pub fn new() -> (pool: WorkerPool)
        ensures
            pool@ == 0,
    {
        WorkerPool { members: 0 }
    }

    /// The number of handlers outstanding.
    pub fn size(&self) -> (n: u64)
        ensures
            n == self@,
    {
        self.members
    }

    /// Whether no handler is outstanding.
    pub fn is_empty(&self) -> (empty: bool)
        ensures
            empty == (self@ == 0),
    {
        self.members == 0
    }

    /// Whether the pool can take one more member.
    pub fn has_room(&self) -> (room: bool)
        ensures
            room == (self@ < u64::MAX),
    {
        self.members < u64::MAX
    }

    /// A handler was started: it becomes a member.
    pub fn spawn(&mut self)
        requires
            old(self)@ < u64::MAX,
        ensures
            final(self)@ == old(self)@ + 1,
    {
        self.members = self.members + 1;
    }

    /// A completion was observed: one member leaves. Returns whether there
    /// was a member to leave; an empty pool stays empty.
    pub fn complete(&mut self) -> (left: bool)
        ensures
            left == (old(self)@ > 0),
            final(self)@ == if old(self)@ > 0 { old(self)@ - 1 } else { 0 },
    {
        if self.members > 0 {
            self.members = self.members - 1;
            true
        } else {
            false
        }
    }

    /// The pool's completion source, polled once. `polled` is what the
    /// underlying set of handlers reported; `Ready(None)` is its way of saying
    /// that it holds nothing, which it may only say of an empty pool.
    pub fn next_completion<T>(&self, polled: Polled<Option<T>>) -> (out: Polled<T>)
        requires
            self@ > 0 ==> !(polled matches Polled::Ready(None)),
        ensures
            out == completion_of(self@, polled),
    {
        if self.members == 0 {
            Polled::Pending
        } else {
            match polled {
                Polled::Ready(Some(result)) => Polled::Ready(result),
                Polled::Ready(None) => vstd::pervasive::unreached(),
                Polled::Pending => Polled::Pending,
            }
        }
    }
}

} // verus!
