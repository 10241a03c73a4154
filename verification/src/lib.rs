//! Distributed locks kept in redis.
//!
//! The library holds the decisions of the locks: which redis request a lock
//! operation needs, and what a reply does to the lock. Talking to redis is left
//! to the caller, which runs each request and hands the reply back.
use vstd::prelude::*;

pub mod errors;
pub mod text;
pub mod lock;
pub mod utils;

use crate::utils::lock_path;

verus! {

/// The redis key of the lock named `id`: `/rdlock/{id}/.lock`.
pub fn get_lock_file(id: &String) -> (file: String)
    ensures
        file@ == lock_path(id@),
{
    let mut file = "/rdlock/".to_owned();
    file.append(id.as_str());
    file.append("/.lock");
    file
}

/// Whether a lock is held.
pub enum LockState {
    Locked,
    Unlocked,
}

impl Default for LockState {
    /// A lock starts out unlocked.
    fn default() -> (state: Self)
        ensures
            state is Unlocked,
    {
        LockState::Unlocked
    }
}

} // verus!
