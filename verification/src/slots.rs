//! The pool of concurrency slots that bounds how many port tasks are in
//! flight at once.

use vstd::prelude::*;

verus! {

/// A counting pool of permits. It is made with a fixed limit and never has
/// more slots outstanding than that.
#[derive(Clone, Copy, Debug, PartialEq, Eq, Structural)]
pub struct SlotPool {
    limit: usize,
    held: usize,
}

impl SlotPool {
    /// Number of slots that the pool was made with.
    pub closed spec fn spec_limit(&self) -> usize {
        self.limit
    }

    /// Number of slots that are outstanding.
    pub closed spec fn spec_held(&self) -> usize {
        self.held
    }

    /// The pool's invariant: it has at least one slot, and no more are
    /// outstanding than it has.
    pub open spec fn wf(&self) -> bool {
        1 <= self.spec_limit() && self.spec_held() <= self.spec_limit()
    }

    /// A pool of `limit` slots, none of them outstanding; no pool where
    /// `limit` is below 1.
    pub fn new(limit: usize) -> (r: Option<SlotPool>)
        ensures
            match r {
                Some(pool) => {
                    &&& limit >= 1
                    &&& pool.wf()
                    &&& pool.spec_limit() == limit
                    &&& pool.spec_held() == 0
                },
                None => limit < 1,
            },
    {
        if limit < 1 {
            None
        } else {
            Some(SlotPool { limit, held: 0 })
        }
    }

    /// Number of slots that the pool was made with.
    pub fn limit(&self) -> (r: usize)
        ensures
            r == self.spec_limit(),
    {
        self.limit
    }

    /// Number of slots that are outstanding.
    pub fn held(&self) -> (r: usize)
        ensures
            r == self.spec_held(),
    {
        self.held
    }

    /// Number of slots that can still be granted.
    pub fn available(&self) -> (r: usize)
        requires
            self.wf(),
        ensures
            r == self.spec_limit() - self.spec_held(),
    {
        self.limit - self.held
    }

    /// Takes a slot if one is free. The answer says whether one was granted;
    /// where none is free the pool is left as it was, and the caller has to
    /// wait for a release.
    pub fn try_acquire(&mut self) -> (granted: bool)
        requires
            old(self).wf(),
        ensures
            final(self).wf(),
            final(self).spec_limit() == old(self).spec_limit(),
            granted == (old(self).spec_held() < old(self).spec_limit()),
            final(self).spec_held() == if granted {
                old(self).spec_held() + 1
            } else {
                old(self).spec_held() as int
            },
    {
        if self.held < self.limit {
            self.held = self.held + 1;
            true
        } else {
            false
        }
    }

    /// Gives a slot back. The answer says whether one was outstanding; where
    /// none was, the pool is left as it was.
    pub fn release(&mut self) -> (released: bool)
        requires
            old(self).wf(),
        ensures
            final(self).wf(),
            final(self).spec_limit() == old(self).spec_limit(),
            released == (old(self).spec_held() > 0),
            final(self).spec_held() == if released {
                old(self).spec_held() - 1
            } else {
                old(self).spec_held() as int
            },
    {
        if self.held > 0 {
            self.held = self.held - 1;
            true
        } else {
            false
        }
    }
}

} // verus!
