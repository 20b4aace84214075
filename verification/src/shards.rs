//! The shard lock table: one reader-writer lock per shard, shared by every
//! store worker and the janitor.
//!
//! Shards are independent: operations against different shard ids never
//! block each other. Lookups take a shard's read lock, mutations its write
//! lock, and `clear` alone takes every write lock at once, in ascending id
//! order, so that no two lock orders can deadlock against each other.

use vstd::prelude::*;

verus! {

/// The fixed array of locks. Opaque to the verifier: the locks' blocking
/// behaviour is the operating system's, not data this crate can state.
/// Relies on `std::sync::RwLock` over a shared `std::sync::Arc`: many
/// readers or one writer per lock, released when the guard drops.
#[verifier::external_body]
struct LockTable {
    locks: std::sync::Arc<[std::sync::RwLock<()>; 4096]>,
}

/// A scoped read guard on one shard; the shard stays readable and
/// unwritable until the guard drops.
#[verifier::external_body]
pub struct ShardReadGuard<'a> {
    guard: std::sync::RwLockReadGuard<'a, ()>,
}

/// A scoped write guard on one shard; the shard is exclusively held until
/// the guard drops.
#[verifier::external_body]
pub struct ShardWriteGuard<'a> {
    guard: std::sync::RwLockWriteGuard<'a, ()>,
}

impl LockTable {
    /// Relies on `std::array::from_fn`, `std::sync::RwLock::new` and
    /// `std::sync::Arc::new`: a fresh table of 4096 unlocked locks.
    #[verifier::external_body]
    fn new() -> Self {
        LockTable { locks: std::sync::Arc::new(std::array::from_fn(|_| std::sync::RwLock::new(()))) }
    }

    /// Relies on `std::sync::Arc::clone`: the copy shares the same locks.
    #[verifier::external_body]
    fn share(&self) -> Self {
        LockTable { locks: self.locks.clone() }
    }

    /// Relies on `std::sync::RwLock::read`: blocks until no writer holds
    /// lock `i`, then returns its guard. Panics only if a holder panicked.
    #[verifier::external_body]
    fn read_lock(&self, i: usize) -> ShardReadGuard<'_>
        requires
            i < 4096,
    {
        ShardReadGuard { guard: self.locks[i].read().expect("shard lock poisoned") }
    }

    /// Relies on `std::sync::RwLock::write`: blocks until lock `i` is free,
    /// then returns its guard. Panics only if a holder panicked.
    #[verifier::external_body]
    fn write_lock(&self, i: usize) -> ShardWriteGuard<'_>
        requires
            i < 4096,
    {
        ShardWriteGuard { guard: self.locks[i].write().expect("shard lock poisoned") }
    }

    /// Relies on `std::sync::RwLock::try_read`: a guard if lock `i` had no
    /// writer at this instant, `None` otherwise; never blocks.
    #[verifier::external_body]
    fn try_read_lock(&self, i: usize) -> Option<ShardReadGuard<'_>>
        requires
            i < 4096,
    {
        match self.locks[i].try_read() {
            Ok(g) => Some(ShardReadGuard { guard: g }),
            Err(_) => None,
        }
    }

    /// Relies on `std::sync::RwLock::try_write`: a guard if lock `i` was
    /// free at this instant, `None` otherwise; never blocks.
    #[verifier::external_body]
    fn try_write_lock(&self, i: usize) -> Option<ShardWriteGuard<'_>>
        requires
            i < 4096,
    {
        match self.locks[i].try_write() {
            Ok(g) => Some(ShardWriteGuard { guard: g }),
            Err(_) => None,
        }
    }
}

/// The shard lock table, cheaply shareable across threads: clones share the
/// same locks.
pub struct Shards {
    table: LockTable,
}

impl Shards {
    /// A fresh table with every shard unlocked.
    pub fn new() -> Shards {
        Shards { table: LockTable::new() }
    }

    /// Takes shard `id`'s read lock, blocking while a writer holds it.
    pub fn read(&self, id: u16) -> ShardReadGuard<'_>
        requires
            id < crate::SHARD_COUNT,
    {
        self.table.read_lock(id as usize)
    }

    /// Takes shard `id`'s write lock, blocking while anyone holds it.
    pub fn write(&self, id: u16) -> ShardWriteGuard<'_>
        requires
            id < crate::SHARD_COUNT,
    {
        self.table.write_lock(id as usize)
    }

    /// Tries shard `id`'s read lock without blocking.
    pub fn try_read(&self, id: u16) -> Option<ShardReadGuard<'_>>
        requires
            id < crate::SHARD_COUNT,
    {
        self.table.try_read_lock(id as usize)
    }

    /// Tries shard `id`'s write lock without blocking; the janitor uses this
    /// to skip a busy shard rather than wait behind a foreground operation.
    pub fn try_write(&self, id: u16) -> Option<ShardWriteGuard<'_>>
        requires
            id < crate::SHARD_COUNT,
    {
        self.table.try_write_lock(id as usize)
    }

    /// Takes every shard's write lock, in ascending id order — the one
    /// operation (`clear`) that holds more than one lock at a time.
    pub fn write_all(&self) -> (guards: Vec<ShardWriteGuard<'_>>)
        ensures
            guards@.len() == crate::SHARD_COUNT as nat,
    {
        let mut guards: Vec<ShardWriteGuard<'_>> = Vec::new();
        let mut id: u16 = 0;
        while id < crate::SHARD_COUNT
            invariant
                id <= crate::SHARD_COUNT,
                guards@.len() == id as nat,
            decreases crate::SHARD_COUNT - id,
        {
            guards.push(self.table.write_lock(id as usize));
            id = id + 1;
        }
        guards
    }
}

impl Clone for Shards {
    /// The clone shares the same lock table.
    fn clone(&self) -> Shards {
        Shards { table: self.table.share() }
    }
}

} // verus!
