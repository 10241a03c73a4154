use std::collections::HashMap;

use rdlock::errors::{RdLockError, RdLockResult};
use rdlock::lock::basic_lock::{wait_start, wait_step, BasicLock, LockStep, WaitDecision, WaitEvent};
use rdlock::utils::RedisRequest;

/// A redis stand-in: keys with an expiry time, on a clock of whole seconds.
struct FakeRedis {
    now: u64,
    keys: HashMap<String, (String, u64)>,
}

impl FakeRedis {
    fn new() -> Self {
        FakeRedis { now: 0, keys: HashMap::new() }
    }

    fn live(&self, key: &str) -> bool {
        match self.keys.get(key) {
            Some((_, expires_at)) => *expires_at > self.now,
            None => false,
        }
    }

    fn set_if_absent(&mut self, key: String, value: String, expire_secs: u64) -> Option<String> {
        if self.live(&key) {
            None
        } else {
            self.keys.insert(key, (value, self.now + expire_secs));
            Some("OK".to_string())
        }
    }

    fn delete(&mut self, key: &str) -> i32 {
        if self.keys.remove(key).is_some() {
            1
        } else {
            0
        }
    }
}

/// Runs `try_lock` against the stand-in, `elapsed` seconds after the lock was taken.
fn try_lock(lock: &mut BasicLock<()>, redis: &mut FakeRedis, elapsed: u64) -> RdLockResult {
    match lock.try_lock_at(elapsed) {
        LockStep::Done(r) => r,
        LockStep::Send(RedisRequest::SetIfAbsent { key, value, expire_secs }) => {
            let reply = redis.set_if_absent(key, value, expire_secs);
            lock.finish_try_lock(Ok(reply))
        }
        LockStep::Send(_) => panic!("try_lock sends only SET NX"),
    }
}

/// Runs `release` against the stand-in.
fn release(lock: &mut BasicLock<()>, redis: &mut FakeRedis, elapsed: u64) -> RdLockResult {
    match lock.release_at(elapsed) {
        LockStep::Done(r) => r,
        LockStep::Send(RedisRequest::Delete { key }) => {
            let n = redis.delete(&key);
            lock.finish_release(Ok(n))
        }
        LockStep::Send(_) => panic!("release sends only DEL"),
    }
}

fn io_error() -> redis::RedisError {
    redis::RedisError::from((redis::ErrorKind::IoError, "connection refused"))
}

#[test]
fn new_lock_is_unlocked() {
    let mut lock = BasicLock::new((), "test_lock", 3600);
    assert_eq!(lock.id(), "test_lock".to_string());
    assert_eq!(lock.ttl(), 3600);
    assert!(!lock.is_locked());
    assert!(!lock.is_locked_at(0));
}

#[test]
fn try_lock_sends_set_nx_on_lock_key() {
    let mut lock = BasicLock::new((), "test_lock", 3600);
    match lock.try_lock_at(0) {
        LockStep::Send(RedisRequest::SetIfAbsent { key, value, expire_secs }) => {
            assert_eq!(key, "/rdlock/test_lock/.lock");
            assert_eq!(value, "V1");
            assert_eq!(expire_secs, 3600);
        }
        _ => panic!("expected a SET NX request"),
    }
    // Nothing stored: still not locked.
    assert!(!lock.is_locked_at(0));
}

#[test]
fn contended_lock_scenario() {
    let mut redis = FakeRedis::new();
    let mut lock = BasicLock::new((), "test_lock", 3600);
    let mut lock2 = BasicLock::new((), "test_lock", 1);

    // Acquire the lock
    assert!(!lock.is_locked_at(0));
    assert_eq!(try_lock(&mut lock, &mut redis, 0), Ok(()));
    assert!(lock.is_locked_at(0));

    // Try acquiring the lock from the 2nd instance
    assert_eq!(try_lock(&mut lock2, &mut redis, 0), Err(RdLockError::LockUnavailable));
    assert!(!lock2.is_locked_at(0));

    // Unlock first lock
    assert_eq!(release(&mut lock, &mut redis, 0), Ok(()));
    assert!(!lock.is_locked_at(0));

    // Try again
    assert_eq!(try_lock(&mut lock2, &mut redis, 0), Ok(()));
    assert!(lock2.is_locked_at(0));

    // Wait for ttl to pass
    redis.now = 1;
    assert!(!lock2.is_locked_at(1));

    // Acquire lock 1 again: the key expired in redis too
    assert_eq!(try_lock(&mut lock, &mut redis, 0), Ok(()));
    assert!(lock.is_locked_at(0));
}

#[test]
fn try_lock_on_held_lock_is_ok_without_request() {
    let mut redis = FakeRedis::new();
    let mut lock = BasicLock::new((), "held", 10);
    assert_eq!(try_lock(&mut lock, &mut redis, 0), Ok(()));
    match lock.try_lock_at(9) {
        LockStep::Done(r) => assert_eq!(r, Ok(())),
        LockStep::Send(_) => panic!("a held lock needs no request"),
    }
    // At the TTL the local check drops the lock and a new request is needed.
    match lock.try_lock_at(10) {
        LockStep::Send(RedisRequest::SetIfAbsent { .. }) => {}
        _ => panic!("an expired lock must be taken again"),
    }
}

#[test]
fn release_unheld_lock_fails() {
    let mut lock = BasicLock::new((), "free", 10);
    match lock.release_at(0) {
        LockStep::Done(r) => assert_eq!(r, Err(RdLockError::LockNotAcquired)),
        LockStep::Send(_) => panic!("nothing to delete"),
    }
}

#[test]
fn release_expired_lock_fails() {
    let mut redis = FakeRedis::new();
    let mut lock = BasicLock::new((), "short", 2);
    assert_eq!(try_lock(&mut lock, &mut redis, 0), Ok(()));
    assert_eq!(release(&mut lock, &mut redis, 2), Err(RdLockError::LockNotAcquired));
}

#[test]
fn release_connection_error_keeps_lock() {
    let mut redis = FakeRedis::new();
    let mut lock = BasicLock::new((), "kept", 100);
    assert_eq!(try_lock(&mut lock, &mut redis, 0), Ok(()));
    match lock.release_at(0) {
        LockStep::Send(RedisRequest::Delete { key }) => assert_eq!(key, "/rdlock/kept/.lock"),
        _ => panic!("expected a DEL request"),
    }
    assert_eq!(lock.finish_release(Err(io_error())), Err(RdLockError::ConnectionError));
    assert!(lock.is_locked_at(0));
}

#[test]
fn failed_set_nx_reply_is_unavailable() {
    let mut lock = BasicLock::new((), "x", 100);
    let _ = lock.try_lock_at(0);
    assert_eq!(lock.finish_try_lock(Err(io_error())), Err(RdLockError::LockUnavailable));
    assert!(!lock.is_locked_at(0));
    assert_eq!(lock.finish_try_lock(Ok(None)), Err(RdLockError::LockUnavailable));
    assert!(!lock.is_locked_at(0));
    assert_eq!(lock.finish_try_lock(Ok(Some("OK".to_string()))), Ok(()));
    assert!(lock.is_locked_at(0));
}

#[test]
fn lock_timeout_subscribes_to_lock_key_events() {
    let mut lock = BasicLock::new((), "test_lock", 3600);
    match lock.lock_timeout_at(0) {
        LockStep::Send(RedisRequest::Subscribe { pattern }) => {
            assert_eq!(pattern, "*/rdlock/test_lock/.lock*")
        }
        _ => panic!("expected a PSUBSCRIBE request"),
    }
    match lock.lock() {
        LockStep::Send(RedisRequest::Subscribe { pattern }) => {
            assert_eq!(pattern, "*/rdlock/test_lock/.lock*")
        }
        _ => panic!("expected a PSUBSCRIBE request"),
    }
}

#[test]
fn lock_timeout_on_held_lock_is_ok() {
    let mut redis = FakeRedis::new();
    let mut lock = BasicLock::new((), "held", 50);
    assert_eq!(try_lock(&mut lock, &mut redis, 0), Ok(()));
    match lock.lock_timeout_at(3) {
        LockStep::Done(r) => assert_eq!(r, Ok(())),
        LockStep::Send(_) => panic!("a held lock needs no wait"),
    }
}

#[test]
fn wait_decisions() {
    assert!(matches!(
        wait_step(WaitEvent::TimedOut),
        WaitDecision::Finish(Err(RdLockError::TimeoutReached))
    ));
    assert!(matches!(wait_step(WaitEvent::Message(None)), WaitDecision::Continue));
    assert!(matches!(
        wait_step(WaitEvent::Message(Some(Ok("del".to_string())))),
        WaitDecision::Attempt
    ));
    assert!(matches!(
        wait_step(WaitEvent::Message(Some(Ok("expired".to_string())))),
        WaitDecision::Attempt
    ));
    assert!(matches!(
        wait_step(WaitEvent::Message(Some(Ok("set".to_string())))),
        WaitDecision::Continue
    ));
    assert!(matches!(
        wait_step(WaitEvent::Message(Some(Err(io_error())))),
        WaitDecision::Finish(Err(RdLockError::RedisError(_)))
    ));
    assert!(matches!(wait_step(WaitEvent::Attempted(Ok(()))), WaitDecision::Finish(Ok(()))));
    assert!(matches!(
        wait_step(WaitEvent::Attempted(Err(RdLockError::LockUnavailable))),
        WaitDecision::Continue
    ));
}

#[test]
fn waiting_lock_acquires_after_release() {
    let mut redis = FakeRedis::new();
    let mut lock = BasicLock::new((), "test_lock", 3600);
    let mut lock2 = BasicLock::new((), "test_lock", 3600);
    assert_eq!(try_lock(&mut lock, &mut redis, 0), Ok(()));

    // lock2 starts waiting: subscribe, then a first attempt that fails.
    assert!(matches!(lock2.lock_timeout_at(0), LockStep::Send(RedisRequest::Subscribe { .. })));
    let first = try_lock(&mut lock2, &mut redis, 0);
    assert!(matches!(wait_step(WaitEvent::Attempted(first)), WaitDecision::Continue));

    // lock releases; the keyspace event reaches lock2, which takes the lock.
    assert_eq!(release(&mut lock, &mut redis, 0), Ok(()));
    let d = wait_step(WaitEvent::Message(Some(Ok("del".to_string()))));
    assert!(matches!(d, WaitDecision::Attempt));
    let second = try_lock(&mut lock2, &mut redis, 0);
    assert!(matches!(wait_step(WaitEvent::Attempted(second)), WaitDecision::Finish(Ok(()))));
    assert!(lock2.is_locked_at(0));
    assert_eq!(release(&mut lock2, &mut redis, 0), Ok(()));
}

#[test]
fn wait_start_decisions() {
    assert!(matches!(wait_start(Ok(())), WaitDecision::Attempt));
    assert!(matches!(
        wait_start(Err(io_error())),
        WaitDecision::Finish(Err(RdLockError::RedisError(_)))
    ));
}

#[test]
fn lock_time_counts_from_acquisition() {
    let made = std::time::Instant::now();
    let mut lock = BasicLock::new_at((), "timed", 5, made);
    let _ = lock.try_lock_at(0);
    let later = made + std::time::Duration::from_secs(100);
    // A refused acquisition keeps the lock unheld.
    assert_eq!(lock.finish_try_lock_at(Ok(None), later), Err(RdLockError::LockUnavailable));
    assert!(!lock.is_locked_at(0));
    // A successful one holds it; the TTL check then counts from the acquisition.
    assert_eq!(lock.finish_try_lock_at(Ok(Some("OK".to_string())), later), Ok(()));
    assert!(lock.is_locked_at(4));
    // The clock-reading check sees the acquisition 100 s in the future, so well within the TTL.
    assert!(lock.is_locked());
    assert!(!lock.is_locked_at(5));
}

#[test]
fn zero_ttl_lock_is_never_reported_held() {
    let mut redis = FakeRedis::new();
    let mut lock = BasicLock::new((), "zero", 0);
    let _ = try_lock(&mut lock, &mut redis, 0);
    assert!(!lock.is_locked_at(0));
    assert!(!lock.is_locked());
    assert_eq!(lock.ttl(), 0);
    assert_eq!(lock.id(), "zero");
}

#[test]
fn second_release_fails_without_request() {
    let mut redis = FakeRedis::new();
    let mut lock = BasicLock::new((), "twice", 100);
    assert_eq!(try_lock(&mut lock, &mut redis, 0), Ok(()));
    assert_eq!(release(&mut lock, &mut redis, 1), Ok(()));
    // Waiting and checking do not make the lock held again.
    assert!(matches!(lock.lock_timeout_at(2), LockStep::Send(RedisRequest::Subscribe { .. })));
    assert!(!lock.is_locked_at(3));
    match lock.release_at(4) {
        LockStep::Done(r) => assert_eq!(r, Err(RdLockError::LockNotAcquired)),
        LockStep::Send(_) => panic!("nothing to delete"),
    }
    assert_eq!(lock.id(), "twice");
    assert_eq!(lock.ttl(), 100);
}
