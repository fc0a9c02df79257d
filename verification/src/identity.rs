//! Allocation of editor identities.

use vstd::prelude::*;

verus! {

/// Hands out editor identities: each one greater than all handed out before.
pub struct IdentityAllocator {
    next: usize,
}

impl IdentityAllocator {
    /// The identity that the next allocation returns.
    pub closed spec fn upcoming(&self) -> usize {
        self.next
    }

    /// An allocator that has handed out nothing; its first identity is zero.
    pub fn new() -> (r: Self)
        ensures
            r.upcoming() == 0,
    {
        IdentityAllocator { next: 0 }
    }

    /// The identity that the next allocation returns, without allocating it.
    pub fn peek(&self) -> (r: usize)
        ensures
            r == self.upcoming(),
    {
        self.next
    }

    /// Whether an identity is left to hand out.
    pub fn has_next(&self) -> (r: bool)
        ensures
            r == (self.upcoming() < usize::MAX),
    {
        self.next < usize::MAX
    }

    /// Allocates an identity: the one announced, and the following one is
    /// announced next. Every identity returned is therefore greater than all
    /// returned before it.
    pub fn next(&mut self) -> (r: usize)
        requires
            old(self).upcoming() < usize::MAX,
        ensures
            r == old(self).upcoming(),
            final(self).upcoming() == r + 1,
    {
        let id: usize = self.next;
        self.next = id + 1;
        id
    }
}

} // verus!
