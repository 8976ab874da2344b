//! The connection pool manager: a bounded set of reusable backend
//! connections with acquire/release semantics.
//!
//! The pooled backends route every operation through one acquisition; this
//! type carries the counting discipline — never more connections in use
//! than the bound, an exhausted pool answers `PoolExhausted` instead of
//! handing out more — while the connections themselves live with the
//! backend adapters.

use crate::store::StorageError;
use vstd::prelude::*;

verus! {

/// A bounded pool: `capacity` connections exist, `available` of them are
/// currently free.
pub struct ConnectionPool {
    capacity: usize,
    available: usize,
}

impl ConnectionPool {
    /// Well-formed: no more connections are free than exist.
    pub closed spec fn wf(&self) -> bool {
        self.available <= self.capacity
    }

    /// The bound the pool was created with.
    pub closed spec fn spec_capacity(&self) -> nat {
        self.capacity as nat
    }

    /// How many connections are free.
    pub closed spec fn spec_available(&self) -> nat {
        self.available as nat
    }

    /// A fresh pool with all `capacity` connections free.
    pub fn new(capacity: usize) -> (r: ConnectionPool)
        ensures
            r.wf(),
            r.spec_capacity() == capacity as nat,
            r.spec_available() == capacity as nat,
    {
        ConnectionPool { capacity, available: capacity }
    }

    /// The bound of the pool.
    pub fn capacity(&self) -> (r: usize)
        ensures
            r == self.spec_capacity(),
    {
        self.capacity
    }

    /// How many connections are free right now.
    pub fn available(&self) -> (r: usize)
        ensures
            r == self.spec_available(),
    {
        self.available
    }

    /// Takes one connection for exclusive use by one operation. With a free
    /// connection the acquisition succeeds and one fewer is available; with
    /// none free — the timeout elapsing — it answers `PoolExhausted`, if
    /// and only if the pool is empty, and nothing changes.
    pub fn acquire(&mut self) -> (r: Result<(), StorageError>)
        requires
            old(self).wf(),
        ensures
            final(self).wf(),
            final(self).spec_capacity() == old(self).spec_capacity(),
            old(self).spec_available() > 0 ==> r == Ok::<(), StorageError>(())
                && final(self).spec_available() == old(self).spec_available() - 1,
            old(self).spec_available() == 0 ==> r == Err::<(), StorageError>(
                StorageError::PoolExhausted,
            ) && final(self).spec_available() == 0,
    {
        if self.available > 0 {
            self.available = self.available - 1;
            Ok(())
        } else {
            Err(StorageError::PoolExhausted)
        }
    }

    /// Returns a connection to the pool. Callers release on every path,
    /// including error paths, and only what they acquired, so a release
    /// never lifts the count past the bound.
    pub fn release(&mut self)
        requires
            old(self).wf(),
            old(self).spec_available() < old(self).spec_capacity(),
        ensures
            final(self).wf(),
            final(self).spec_capacity() == old(self).spec_capacity(),
            final(self).spec_available() == old(self).spec_available() + 1,
    {
        self.available = self.available + 1;
    }
}

} // verus!
