//! The locks.
use vstd::prelude::*;

use crate::LockState;

pub mod basic_lock;



verus! {

/// A lock that guards no value, of which only the creation is settled so far.
///
/// The lock will only get released automatically when the TTL period ends.
pub struct Lock<P> {
    id: String,
    ttl: u64,
    bb8_pool: P,
    state: LockState,
}

impl<P> Lock<P> {
    /// The name of the lock.
    pub closed spec fn spec_id(&self) -> Seq<char> {
        self.id@
    }

    /// The automatic expiry time of the lock, in seconds.
    pub closed spec fn spec_ttl(&self) -> u64 {
        self.ttl
    }

    /// The connection pool that the lock was made with.
    pub closed spec fn spec_pool(&self) -> P {
        self.bb8_pool
    }

    /// Whether the lock is held by this instance.
    pub closed spec fn spec_locked(&self) -> bool {
        self.state is Locked
    }

    /// Creates a new instance of a simple lock in an unlocked state.
    pub fn new(bb8_pool: P, id: String, ttl: u64) -> (lock: Self)
        ensures
            lock.spec_id() == id@,
            lock.spec_ttl() == ttl,
            lock.spec_pool() == bb8_pool,
            !lock.spec_locked(),
    {
        Lock { id, ttl, bb8_pool, state: LockState::default() }
    }
}

} // verus!
