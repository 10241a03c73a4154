//! The most basic lock: a redis key that one instance at a time holds.
use vstd::prelude::*;
use vstd::string::*;

use std::time::{Duration, Instant};

use redis::RedisError;

use crate::errors::{RdLockError, RdLockResult};
use crate::text::str_equal;
use crate::utils::{
    get_redis_lock_location, lock_path, redis_set_nx_outcome, set_nx_outcome, version_name,
    LockVersion, RedisRequest, RedisRequestView, DEFAULT_LOCK_VERSION,
};

verus! {

/// A point of the monotonic clock of `std`.
#[verifier::external_type_specification]
#[verifier::external_body]
pub struct ExInstant(std::time::Instant);

/// `Instant::now`: the current point of the monotonic clock. What it returns
/// depends on the time at the call: nothing is claimed of it.
#[verifier::external_body]
fn instant_now() -> Instant {
    Instant::now()
}

/// `Instant::elapsed`: the time since `t`. It depends on the time at the call:
/// nothing is claimed of it.
#[verifier::external_body]
fn instant_elapsed(t: &Instant) -> Duration {
    t.elapsed()
}

/// `Duration::as_secs`: the whole seconds of `d`. A `Duration` is opaque here, so
/// nothing is claimed of the number.
#[verifier::external_body]
fn duration_as_secs(d: &Duration) -> u64 {
    d.as_secs()
}

/// A basic lock as plain values: its name, its expiry time in seconds, and
/// whether this instance holds it.
pub struct BasicLockView {
    pub id: Seq<char>,
    pub ttl: u64,
    pub locked: bool,
}

/// What an operation does next: it is finished with a result, or it needs redis
/// to carry out a request first.
pub enum LockStep {
    Done(RdLockResult),
    Send(RedisRequest),
}

/// A step as plain values.
pub enum LockStepView {
    Done(RdLockResult),
    Send(RedisRequestView),
}

impl View for LockStep {
    type V = LockStepView;

    open spec fn view(&self) -> LockStepView {
        match self {
            LockStep::Done(r) => LockStepView::Done(*r),
            LockStep::Send(req) => LockStepView::Send(req@),
        }
    }
}

/// The local TTL check: a held lock whose TTL has passed is no longer held.
pub open spec fn after_ttl_check(s: BasicLockView, elapsed_secs: u64) -> BasicLockView {
    BasicLockView { locked: s.locked && elapsed_secs < s.ttl, ..s }
}

/// The request that takes the lock: its key, holding the lock version, expiring
/// after the TTL, stored only if it does not exist yet.
pub open spec fn acquire_request(s: BasicLockView) -> RedisRequestView {
    RedisRequestView::SetIfAbsent {
        key: lock_path(s.id),
        value: version_name(LockVersion::V1),
        expire_secs: s.ttl,
    }
}

/// The request that gives the lock back: its key is deleted.
pub open spec fn release_request(s: BasicLockView) -> RedisRequestView {
    RedisRequestView::Delete { key: lock_path(s.id) }
}

/// The keyspace events of the lock key: `*{lock_file}*`.
pub open spec fn watch_pattern(s: BasicLockView) -> Seq<char> {
    "*"@ + lock_path(s.id) + "*"@
}

/// The request that listens for the lock key to be deleted or to expire.
pub open spec fn watch_request(s: BasicLockView) -> RedisRequestView {
    RedisRequestView::Subscribe { pattern: watch_pattern(s) }
}

/// The first step of `try_lock`, `elapsed_secs` after the lock was taken: a
/// lock that is still held is kept at once; else redis is asked for the key.
pub open spec fn try_lock_plan(s: BasicLockView, elapsed_secs: u64) -> (BasicLockView, LockStepView) {
    let c = after_ttl_check(s, elapsed_secs);
    if c.locked {
        (c, LockStepView::Done(Ok(())))
    } else {
        (c, LockStepView::Send(acquire_request(c)))
    }
}

/// What the reply to the acquire request does: the lock is held when the key was
/// stored.
pub open spec fn after_acquire_reply(s: BasicLockView, reply: Result<Option<String>, RedisError>) -> (
    BasicLockView,
    RdLockResult,
) {
    let r = set_nx_outcome(reply);
    (BasicLockView { locked: s.locked || r is Ok, ..s }, r)
}

/// The first step of `release`: a lock that is not held cannot be released;
/// else redis is asked to delete the key.
pub open spec fn release_plan(s: BasicLockView, elapsed_secs: u64) -> (BasicLockView, LockStepView) {
    let c = after_ttl_check(s, elapsed_secs);
    if !c.locked {
        (c, LockStepView::Done(Err(RdLockError::LockNotAcquired)))
    } else {
        (c, LockStepView::Send(release_request(c)))
    }
}

/// What the reply to the release request does: the lock is given back when the
/// key was deleted; else redis could not be reached and the lock stays held.
pub open spec fn after_release_reply(s: BasicLockView, reply: Result<i32, RedisError>) -> (
    BasicLockView,
    RdLockResult,
) {
    if reply is Ok {
        (BasicLockView { locked: false, ..s }, Ok(()))
    } else {
        (s, Err(RdLockError::ConnectionError))
    }
}

/// The first step of `lock_timeout`: a lock that is still held is kept at once;
/// else redis is asked for the events of the lock key.
pub open spec fn lock_timeout_plan(s: BasicLockView, elapsed_secs: u64) -> (BasicLockView, LockStepView) {
    let c = after_ttl_check(s, elapsed_secs);
    if c.locked {
        (c, LockStepView::Done(Ok(())))
    } else {
        (c, LockStepView::Send(watch_request(c)))
    }
}

/// What happens while `lock_timeout` waits for the lock.
pub enum WaitEvent {
    /// The timeout has been reached.
    TimedOut,
    /// The subscription to the lock key's events yielded an item: `None` when it
    /// yielded nothing, else the message's payload read as a string.
    Message(Option<Result<String, RedisError>>),
    /// An attempt to take the lock (`try_lock`) finished with this result.
    Attempted(RdLockResult),
}

/// What `lock_timeout` does after an event of the wait.
pub enum WaitDecision {
    /// The wait is over, with this result.
    Finish(RdLockResult),
    /// Attempt to take the lock now (`try_lock`), and report how it went.
    Attempt,
    /// Keep waiting for the next event.
    Continue,
}

/// Whether a keyspace event says that the lock key is gone.
pub open spec fn key_gone_event(payload: Seq<char>) -> bool {
    payload == "del"@ || payload == "expired"@
}

/// The decision after each event of the wait: the timeout ends it, as does a
/// payload that cannot be read; a deleted or expired key calls for an attempt to
/// take the lock, and a successful attempt ends the wait.
pub open spec fn wait_decision(event: WaitEvent) -> WaitDecision {
    match event {
        WaitEvent::TimedOut => WaitDecision::Finish(Err(RdLockError::TimeoutReached)),
        WaitEvent::Message(None) => WaitDecision::Continue,
        WaitEvent::Message(Some(Err(e))) => WaitDecision::Finish(Err(RdLockError::RedisError(e))),
        WaitEvent::Message(Some(Ok(payload))) => if key_gone_event(payload@) {
            WaitDecision::Attempt
        } else {
            WaitDecision::Continue
        },
        WaitEvent::Attempted(Ok(())) => WaitDecision::Finish(Ok(())),
        WaitEvent::Attempted(Err(_)) => WaitDecision::Continue,
    }
}

/// How the wait of `lock_timeout` starts, once redis has answered the request to
/// report the lock key's events: a failed subscription ends it with the redis
/// error; else the first thing is an attempt to take the lock.
pub open spec fn wait_start_decision(subscription: Result<(), RedisError>) -> WaitDecision {
    match subscription {
        Ok(()) => WaitDecision::Attempt,
        Err(e) => WaitDecision::Finish(Err(RdLockError::RedisError(e))),
    }
}

/// Decides how the wait of `lock_timeout` starts, given how the subscription to
/// the lock key's events went.
pub fn wait_start(subscription: Result<(), RedisError>) -> (d: WaitDecision)
    ensures
        d == wait_start_decision(subscription),
{
    match subscription {
        Ok(()) => WaitDecision::Attempt,
        Err(e) => WaitDecision::Finish(Err(RdLockError::from(e))),
    }
}

/// Decides what `lock_timeout` does after an event of its wait.
pub fn wait_step(event: WaitEvent) -> (d: WaitDecision)
    ensures
        d == wait_decision(event),
{
    match event {
        WaitEvent::TimedOut => WaitDecision::Finish(Err(RdLockError::TimeoutReached)),
        WaitEvent::Message(None) => WaitDecision::Continue,
        WaitEvent::Message(Some(Err(e))) => WaitDecision::Finish(Err(RdLockError::from(e))),
        WaitEvent::Message(Some(Ok(payload))) => {
            if str_equal(payload.as_str(), "del") || str_equal(payload.as_str(), "expired") {
                WaitDecision::Attempt
            } else {
                WaitDecision::Continue
            }
        },
        WaitEvent::Attempted(Ok(())) => WaitDecision::Finish(Ok(())),
        WaitEvent::Attempted(Err(_)) => WaitDecision::Continue,
    }
}

/// The lock's TTL is a limit of the lock's own: once `ttl` seconds have passed
/// since the lock was taken, this instance no longer holds it; before, the check
/// changes nothing. The check never takes a lock, and keeps the name and TTL.
pub proof fn law_ttl_expiry(s: BasicLockView, elapsed_secs: u64)
    ensures
        after_ttl_check(s, elapsed_secs).id == s.id,
        after_ttl_check(s, elapsed_secs).ttl == s.ttl,
        after_ttl_check(s, elapsed_secs).locked ==> s.locked,
        elapsed_secs >= s.ttl ==> !after_ttl_check(s, elapsed_secs).locked,
        elapsed_secs < s.ttl ==> after_ttl_check(s, elapsed_secs) == s,
{
}

/// A lock that this instance still holds is kept at once by `try_lock` and by
/// `lock_timeout`: `Ok(())`, no request to redis, nothing changed.
pub proof fn law_held_lock_is_kept(s: BasicLockView, elapsed_secs: u64)
    requires
        s.locked,
        elapsed_secs < s.ttl,
    ensures
        try_lock_plan(s, elapsed_secs) == (s, LockStepView::Done(Ok(()))),
        lock_timeout_plan(s, elapsed_secs) == (s, LockStepView::Done(Ok(()))),
{
}

/// Releasing a lock that this instance does not hold fails with
/// `LockNotAcquired`, sends nothing to redis and changes nothing.
pub proof fn law_release_unheld_lock(s: BasicLockView, elapsed_secs: u64)
    requires
        !s.locked,
    ensures
        release_plan(s, elapsed_secs) == (s, LockStepView::Done(Err(RdLockError::LockNotAcquired))),
{
}

/// Every step of every operation keeps the lock's name and TTL.
pub proof fn law_steps_keep_identity(
    s: BasicLockView,
    elapsed_secs: u64,
    set_reply: Result<Option<String>, RedisError>,
    del_reply: Result<i32, RedisError>,
)
    ensures
        try_lock_plan(s, elapsed_secs).0.id == s.id && try_lock_plan(s, elapsed_secs).0.ttl == s.ttl,
        release_plan(s, elapsed_secs).0.id == s.id && release_plan(s, elapsed_secs).0.ttl == s.ttl,
        lock_timeout_plan(s, elapsed_secs).0.id == s.id && lock_timeout_plan(s, elapsed_secs).0.ttl
            == s.ttl,
        after_acquire_reply(s, set_reply).0.id == s.id && after_acquire_reply(s, set_reply).0.ttl
            == s.ttl,
        after_release_reply(s, del_reply).0.id == s.id && after_release_reply(s, del_reply).0.ttl
            == s.ttl,
{
}

/// A failed attempt to take a lock that was not held leaves it not held; a
/// failed release leaves a held lock held.
pub proof fn law_failures_change_nothing(
    s: BasicLockView,
    set_reply: Result<Option<String>, RedisError>,
    del_reply: Result<i32, RedisError>,
)
    ensures
        set_nx_outcome(set_reply) is Err ==> after_acquire_reply(s, set_reply).0 == s,
        del_reply is Err ==> after_release_reply(s, del_reply) == (
            s,
            Err::<(), RdLockError>(RdLockError::ConnectionError),
        ),
{
}

/// Locks of the same name contend for one redis key; locks of different names
/// never do.
pub proof fn law_same_name_same_key(s: BasicLockView, t: BasicLockView)
    ensures
        (acquire_request(s)->SetIfAbsent_key == acquire_request(t)->SetIfAbsent_key) <==> (s.id
            == t.id),
{
    crate::utils::lemma_lock_path_injective(s.id, t.id);
}

/// Taking a free lock and giving it back: `try_lock` asks redis to store the
/// lock key, and once redis has stored it the lock is held; `release` (before
/// the TTL is over) asks redis to delete that same key, and once it is deleted
/// the lock is as it was before it was taken.
pub proof fn law_acquire_then_release(
    s: BasicLockView,
    elapsed_before: u64,
    stored: String,
    elapsed_after: u64,
    deleted: i32,
)
    requires
        !s.locked,
        elapsed_after < s.ttl,
    ensures
        ({
            let (s1, step1) = try_lock_plan(s, elapsed_before);
            let (s2, r2) = after_acquire_reply(s1, Ok(Some(stored)));
            let (s3, step3) = release_plan(s2, elapsed_after);
            let (s4, r4) = after_release_reply(s3, Ok(deleted));
            &&& s1 == s
            &&& step1 == LockStepView::Send(acquire_request(s))
            &&& r2 == Ok::<(), RdLockError>(())
            &&& s2.locked
            &&& step3 == LockStepView::Send(release_request(s))
            &&& acquire_request(s)->SetIfAbsent_key == release_request(s)->Delete_key
            &&& r4 == Ok::<(), RdLockError>(())
            &&& s4 == s
        }),
{
}

/// One call on a basic lock, with what it was given: the seconds since the
/// lock was taken, for the calls that check the TTL, or redis's reply.
pub enum LockOp {
    /// `is_locked`
    IsLocked { elapsed_secs: u64 },
    /// the first step of `try_lock`
    TryLock { elapsed_secs: u64 },
    /// the end of `try_lock`, with the reply to the acquire request
    FinishTryLock { set_reply: Result<Option<String>, RedisError> },
    /// the first step of `release`
    Release { elapsed_secs: u64 },
    /// the end of `release`, with the reply to the delete request
    FinishRelease { del_reply: Result<i32, RedisError> },
    /// the first step of `lock_timeout` or `lock`
    LockTimeout { elapsed_secs: u64 },
}

/// The lock after one call.
pub open spec fn apply_op(s: BasicLockView, op: LockOp) -> BasicLockView {
    match op {
        LockOp::IsLocked { elapsed_secs } => after_ttl_check(s, elapsed_secs),
        LockOp::TryLock { elapsed_secs } => try_lock_plan(s, elapsed_secs).0,
        LockOp::FinishTryLock { set_reply } => after_acquire_reply(s, set_reply).0,
        LockOp::Release { elapsed_secs } => release_plan(s, elapsed_secs).0,
        LockOp::FinishRelease { del_reply } => after_release_reply(s, del_reply).0,
        LockOp::LockTimeout { elapsed_secs } => lock_timeout_plan(s, elapsed_secs).0,
    }
}

/// The lock after a run of calls, in order.
pub open spec fn run_ops(s: BasicLockView, ops: Seq<LockOp>) -> BasicLockView
    decreases ops.len(),
{
    if ops.len() == 0 {
        s
    } else {
        run_ops(apply_op(s, ops[0]), ops.drop_first())
    }
}

/// Whether a call is the end of an acquisition that redis stored.
pub open spec fn stores_acquisition(op: LockOp) -> bool {
    match op {
        LockOp::FinishTryLock { set_reply } => set_nx_outcome(set_reply) is Ok,
        _ => false,
    }
}

/// Whatever calls are made on a lock, its name and TTL stay those it was made
/// with.
pub proof fn law_run_keeps_identity(s: BasicLockView, ops: Seq<LockOp>)
    ensures
        run_ops(s, ops).id == s.id,
        run_ops(s, ops).ttl == s.ttl,
    decreases ops.len(),
{
    if ops.len() > 0 {
        law_run_keeps_identity(apply_op(s, ops[0]), ops.drop_first());
    }
}

/// A lock with a TTL of zero seconds is never reported held, whatever calls
/// were made on it before.
pub proof fn law_zero_ttl_never_held(s: BasicLockView, ops: Seq<LockOp>, elapsed_secs: u64)
    requires
        s.ttl == 0,
    ensures
        !after_ttl_check(run_ops(s, ops), elapsed_secs).locked,
{
    law_run_keeps_identity(s, ops);
}

/// A lock that is not held stays not held until redis stores an acquisition of
/// it: waiting, checking and releasing never make it held.
pub proof fn law_unheld_until_acquired(s: BasicLockView, ops: Seq<LockOp>)
    requires
        !s.locked,
        forall|i: int| 0 <= i < ops.len() ==> !stores_acquisition(#[trigger] ops[i]),
    ensures
        !run_ops(s, ops).locked,
    decreases ops.len(),
{
    if ops.len() > 0 {
        let t = ops.drop_first();
        assert(!stores_acquisition(ops[0]));
        assert forall|i: int| 0 <= i < t.len() implies !stores_acquisition(#[trigger] t[i]) by {
            assert(t[i] == ops[i + 1]);
        }
        law_unheld_until_acquired(apply_op(s, ops[0]), t);
    }
}

/// After a successful release, and until redis stores a new acquisition, a
/// second release fails with `LockNotAcquired` and sends nothing to redis.
pub proof fn law_second_release_fails(
    s: BasicLockView,
    deleted: i32,
    ops: Seq<LockOp>,
    elapsed_secs: u64,
)
    requires
        forall|i: int| 0 <= i < ops.len() ==> !stores_acquisition(#[trigger] ops[i]),
    ensures
        ({
            let (s1, r1) = after_release_reply(s, Ok(deleted));
            let s2 = run_ops(s1, ops);
            &&& r1 == Ok::<(), RdLockError>(())
            &&& release_plan(s2, elapsed_secs) == (s2, LockStepView::Done(Err(RdLockError::LockNotAcquired)))
        }),
{
    let (s1, r1) = after_release_reply(s, Ok(deleted));
    law_unheld_until_acquired(s1, ops);
}

/// The wait of `lock_timeout` ends with `Ok(())` only after an attempt to
/// take the lock succeeded; every other end is an error.
pub proof fn law_wait_ok_only_after_attempt(event: WaitEvent)
    ensures
        (wait_decision(event) is Finish && wait_decision(event)->Finish_0 is Ok) ==> (event is Attempted
            && event->Attempted_0 is Ok),
        wait_start_decision(Ok(())) == WaitDecision::Attempt,
{
}

/// The most basic type of lock. It holds no value and is atomic across all instances connected to
/// the same redis instance.
///
/// The lock will only get released automatically when the TTL period ends.
/// In order to unlock it early, just call the `.release()` function.
pub struct BasicLock<P> {
    id: String,
    lock_file: String,
    ttl: u64,
    pool: P,
    is_locked: bool,
    lock_time: Instant,
}

impl<P> View for BasicLock<P> {
    type V = BasicLockView;

    closed spec fn view(&self) -> BasicLockView {
        BasicLockView { id: self.id@, ttl: self.ttl, locked: self.is_locked }
    }
}

impl<P> BasicLock<P> {
    /// The lock key is always the one of the lock's name.
    #[verifier::type_invariant]
    closed spec fn lock_file_matches_id(&self) -> bool {
        self.lock_file@ == lock_path(self.id@)
    }

    /// The connection pool that the lock was made with.
    pub closed spec fn spec_pool(&self) -> P {
        self.pool
    }

    /// The point of the clock from which the lock's TTL counts: when the lock
    /// was last taken, or made.
    pub closed spec fn spec_lock_time(&self) -> Instant {
        self.lock_time
    }

    /// Creates a new instance of a simple lock in an unlocked state, at the
    /// point `now` of the clock.
    ///
    /// `ttl` is in seconds, and it represents the lock's automatic expiry time
    pub fn new_at(pool: P, id: &str, ttl: u64, now: Instant) -> (lock: Self)
        ensures
            lock@ == (BasicLockView { id: id@, ttl, locked: false }),
            lock.spec_pool() == pool,
            lock.spec_lock_time() == now,
    {
        let (lock_file, _) = get_redis_lock_location(id);
        BasicLock {
            id: id.to_owned(),
            lock_file,
            ttl,
            pool,
            is_locked: false,
            lock_time: now,
        }
    }

    /// Creates a new instance of a simple lock in an unlocked state.
    ///
    /// `ttl` is in seconds, and it represents the lock's automatic expiry time
    pub fn new(pool: P, id: &str, ttl: u64) -> (lock: Self)
        ensures
            lock@ == (BasicLockView { id: id@, ttl, locked: false }),
            lock.spec_pool() == pool,
    {
        let now = instant_now();
        BasicLock::new_at(pool, id, ttl, now)
    }

    /// Returns the lock id
    pub fn id(&self) -> (id: String)
        ensures
            id@ == self@.id,
    {
        self.id.clone()
    }

    /// Returns the lock TTL in seconds
    pub fn ttl(&self) -> (ttl: u64)
        ensures
            ttl == self@.ttl,
    {
        self.ttl
    }

    /// The connection pool that the lock was made with.
    pub fn pool(&self) -> (pool: &P)
        ensures
            *pool == self.spec_pool(),
    {
        &self.pool
    }

    /// The whole seconds since the lock was last taken (or made), by the clock.
    fn elapsed_secs(&self) -> u64 {
        let d = instant_elapsed(&self.lock_time);
        duration_as_secs(&d)
    }

    /// The local TTL check, `elapsed_secs` after the lock was taken.
    fn ttl_check(&mut self, elapsed_secs: u64)
        ensures
            final(self)@ == after_ttl_check(old(self)@, elapsed_secs),
            final(self).spec_pool() == old(self).spec_pool(),
            final(self).spec_lock_time() == old(self).spec_lock_time(),
    {
        proof {
            use_type_invariant(&*self);
        }
        if self.is_locked && elapsed_secs >= self.ttl {
            self.is_locked = false;
        }
    }

    /// Returns `true` if the `BasicLock` is locked inside this instance,
    /// `elapsed_secs` after it was taken.
    ///
    /// Also performs the local TTL check.
    pub fn is_locked_at(&mut self, elapsed_secs: u64) -> (locked: bool)
        ensures
            final(self)@ == after_ttl_check(old(self)@, elapsed_secs),
            locked == final(self)@.locked,
            final(self).spec_pool() == old(self).spec_pool(),
            final(self).spec_lock_time() == old(self).spec_lock_time(),
    {
        self.ttl_check(elapsed_secs);
        self.is_locked
    }

    /// Returns `true` if the `BasicLock` is locked inside this instance.
    ///
    /// Also performs a local TTL sanity check to see if that is the case
    pub fn is_locked(&mut self) -> (locked: bool)
        ensures
            exists|elapsed_secs: u64|
                final(self)@ == #[trigger] after_ttl_check(old(self)@, elapsed_secs),
            locked == final(self)@.locked,
            final(self).spec_pool() == old(self).spec_pool(),
            final(self).spec_lock_time() == old(self).spec_lock_time(),
    {
        let elapsed = self.elapsed_secs();
        self.is_locked_at(elapsed)
    }

    /// The first step of `try_lock`, `elapsed_secs` after the lock was taken.
    ///
    /// If the `BasicLock` is already locked by this instance, it is done with
    /// `Ok(())`; else redis is to store the lock key if it does not exist.
    pub fn try_lock_at(&mut self, elapsed_secs: u64) -> (step: LockStep)
        ensures
            (final(self)@, step@) == try_lock_plan(old(self)@, elapsed_secs),
            final(self).spec_pool() == old(self).spec_pool(),
            final(self).spec_lock_time() == old(self).spec_lock_time(),
    {
        self.ttl_check(elapsed_secs);
        proof {
            use_type_invariant(&*self);
        }
        if self.is_locked {
            return LockStep::Done(Ok(()));
        }
        let value = DEFAULT_LOCK_VERSION.name();
        LockStep::Send(
            RedisRequest::SetIfAbsent {
                key: self.lock_file.clone(),
                value,
                expire_secs: self.ttl,
            },
        )
    }

    /// The first step of `try_lock`: attempts to acquire the lock instantly.
    ///
    /// If the `BasicLock` is already locked by this instance, it is done with
    /// `Ok(())`; else redis is to store the lock key if it does not exist.
    pub fn try_lock(&mut self) -> (step: LockStep)
        ensures
            exists|elapsed_secs: u64|
                (final(self)@, step@) == #[trigger] try_lock_plan(old(self)@, elapsed_secs),
            final(self).spec_pool() == old(self).spec_pool(),
            final(self).spec_lock_time() == old(self).spec_lock_time(),
    {
        let elapsed = self.elapsed_secs();
        self.try_lock_at(elapsed)
    }

    /// The end of `try_lock`, at the point `now` of the clock: takes the reply to
    /// the request of `try_lock`. The lock is held from now on when redis stored
    /// the key, and its TTL counts from `now`; else nothing changes.
    pub fn finish_try_lock_at(
        &mut self,
        reply: Result<Option<String>, RedisError>,
        now: Instant,
    ) -> (r: RdLockResult)
        ensures
            (final(self)@, r) == after_acquire_reply(old(self)@, reply),
            final(self).spec_pool() == old(self).spec_pool(),
            r is Ok ==> final(self).spec_lock_time() == now,
            r is Err ==> final(self).spec_lock_time() == old(self).spec_lock_time(),
    {
        proof {
            use_type_invariant(&*self);
        }
        let res = redis_set_nx_outcome(reply);
        if res.is_ok() {
            self.lock_time = now;
            self.is_locked = true;
        }
        res
    }

    /// The end of `try_lock`: takes the reply to the request of `try_lock`. The
    /// lock is held from now on when redis stored the key, and its TTL counts
    /// from the clock's reading at that point; else nothing changes.
    pub fn finish_try_lock(&mut self, reply: Result<Option<String>, RedisError>) -> (r: RdLockResult)
        ensures
            (final(self)@, r) == after_acquire_reply(old(self)@, reply),
            final(self).spec_pool() == old(self).spec_pool(),
            r is Err ==> final(self).spec_lock_time() == old(self).spec_lock_time(),
    {
        let now = instant_now();
        self.finish_try_lock_at(reply, now)
    }

    /// The first step of `release`, `elapsed_secs` after the lock was taken.
    ///
    /// Done with `Err(RdLockError::LockNotAcquired)` if the lock was not acquired;
    /// else redis is to delete the lock key.
    pub fn release_at(&mut self, elapsed_secs: u64) -> (step: LockStep)
        ensures
            (final(self)@, step@) == release_plan(old(self)@, elapsed_secs),
            final(self).spec_pool() == old(self).spec_pool(),
            final(self).spec_lock_time() == old(self).spec_lock_time(),
    {
        self.ttl_check(elapsed_secs);
        proof {
            use_type_invariant(&*self);
        }
        if !self.is_locked {
            return LockStep::Done(Err(RdLockError::LockNotAcquired));
        }
        LockStep::Send(RedisRequest::Delete { key: self.lock_file.clone() })
    }

    /// The first step of `release`: releases or unlocks the `BasicLock` early,
    /// before the TTL expires.
    ///
    /// Done with `Err(RdLockError::LockNotAcquired)` if the lock was not acquired;
    /// else redis is to delete the lock key.
    pub fn release(&mut self) -> (step: LockStep)
        ensures
            exists|elapsed_secs: u64|
                (final(self)@, step@) == #[trigger] release_plan(old(self)@, elapsed_secs),
            final(self).spec_pool() == old(self).spec_pool(),
            final(self).spec_lock_time() == old(self).spec_lock_time(),
    {
        let elapsed = self.elapsed_secs();
        self.release_at(elapsed)
    }

    /// The end of `release`: takes the reply to the delete request. The lock is
    /// given back when the key is gone; else it is a connection error.
    pub fn finish_release(&mut self, reply: Result<i32, RedisError>) -> (r: RdLockResult)
        ensures
            (final(self)@, r) == after_release_reply(old(self)@, reply),
            final(self).spec_pool() == old(self).spec_pool(),
            final(self).spec_lock_time() == old(self).spec_lock_time(),
    {
        proof {
            use_type_invariant(&*self);
        }
        if crate::utils::redis_remove_outcome(&reply) {
            self.is_locked = false;
            Ok(())
        } else {
            Err(RdLockError::ConnectionError)
        }
    }

    /// The first step of `lock_timeout`, `elapsed_secs` after the lock was taken.
    ///
    /// If the `BasicLock` is already locked by this instance, it is done with
    /// `Ok(())`; else redis is to report the events of the lock key, and the wait
    /// goes on with `wait_step`.
    pub fn lock_timeout_at(&mut self, elapsed_secs: u64) -> (step: LockStep)
        ensures
            (final(self)@, step@) == lock_timeout_plan(old(self)@, elapsed_secs),
            final(self).spec_pool() == old(self).spec_pool(),
            final(self).spec_lock_time() == old(self).spec_lock_time(),
    {
        self.ttl_check(elapsed_secs);
        proof {
            use_type_invariant(&*self);
        }
        if self.is_locked {
            return LockStep::Done(Ok(()));
        }
        let mut pattern = "*".to_owned();
        pattern.append(self.lock_file.as_str());
        pattern.append("*");
        LockStep::Send(RedisRequest::Subscribe { pattern })
    }

    /// The first step of `lock`: locks, waiting until the lock is available and
    /// acquired, with no time limit. It is the first step of `lock_timeout`; the
    /// wait that follows has no timeout.
    pub fn lock(&mut self) -> (step: LockStep)
        ensures
            exists|elapsed_secs: u64|
                (final(self)@, step@) == #[trigger] lock_timeout_plan(old(self)@, elapsed_secs),
            final(self).spec_pool() == old(self).spec_pool(),
            final(self).spec_lock_time() == old(self).spec_lock_time(),
    {
        self.lock_timeout()
    }

    /// The first step of `lock_timeout`, which locks, waiting until the lock is
    /// available and acquired, within a timeout that the caller's wait keeps.
    ///
    /// If the `BasicLock` is already locked by this instance, it is done with
    /// `Ok(())`; else redis is to report the events of the lock key, and the wait
    /// goes on with `wait_start` and `wait_step`.
    pub fn lock_timeout(&mut self) -> (step: LockStep)
        ensures
            exists|elapsed_secs: u64|
                (final(self)@, step@) == #[trigger] lock_timeout_plan(old(self)@, elapsed_secs),
            final(self).spec_pool() == old(self).spec_pool(),
            final(self).spec_lock_time() == old(self).spec_lock_time(),
    {
        let elapsed = self.elapsed_secs();
        self.lock_timeout_at(elapsed)
    }
}

} // verus!
