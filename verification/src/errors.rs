//! Errors returned from the lock operations.
use vstd::prelude::*;
use vstd::string::*;

use redis::RedisError;

verus! {

/// The error that the `redis` crate returns for a failed command or connection.
#[verifier::external_type_specification]
#[verifier::external_body]
pub struct ExRedisError(redis::RedisError);

/// Errors returned from various `rdlock` functions
#[derive(Debug, PartialEq)]
pub enum RdLockError {
    /// Error related to redis
    RedisError(RedisError),
    /// The lock is currently unavailable and could not be acquired
    LockUnavailable,
    /// Timeout has been reached
    TimeoutReached,
    /// The lock was not acquired by this instance
    LockNotAcquired,
    /// Connection error or error related to a redis command
    ConnectionError,
    /// The redis instance does not support distributed locks
    InitCheckFailed,
}

/// What every lock operation returns.
pub type RdLockResult = Result<(), RdLockError>;

impl From<RedisError> for RdLockError {
    fn from(value: RedisError) -> (err: Self) {
        RdLockError::RedisError(value)
    }
}

impl vstd::std_specs::convert::FromSpecImpl<RedisError> for RdLockError {
    open spec fn obeys_from_spec() -> bool {
        true
    }

    open spec fn from_spec(v: RedisError) -> RdLockError {
        RdLockError::RedisError(v)
    }
}

/// The prefix of the message of an error that came from redis.
pub open spec fn redis_error_prefix() -> Seq<char> {
    "Redis error: "@
}

/// The message of each error that does not carry a redis error.
pub open spec fn fixed_message(e: RdLockError) -> Seq<char> {
    match e {
        RdLockError::RedisError(_) => Seq::empty(),
        RdLockError::LockUnavailable => "LockUnavailable"@,
        RdLockError::TimeoutReached => "TimeoutReached"@,
        RdLockError::LockNotAcquired => "LockNotAcquired: The lock is currently not acquired"@,
        RdLockError::ConnectionError => "ConnectionError"@,
        RdLockError::InitCheckFailed => "InitCheckFailed: redis does not support distributed locks. Check README.md and make sure notify-keyspace-events is set"@,
    }
}

/// The `Debug` text of a redis error, as `{:?}` writes it.
///
/// What the text is depends on the error's kind and detail, which are private to
/// the `redis` crate: nothing is claimed of it.
#[verifier::external_body]
fn redis_error_debug_text(e: &RedisError) -> String {
    format!("{:?}", e)
}

/// The message of an error that came from redis, given the error's `Debug`
/// text: `Redis error: ` and the text.
pub fn redis_error_message_of(text: &str) -> (msg: String)
    ensures
        msg@ == redis_error_prefix() + text@,
{
    let mut msg = "Redis error: ".to_owned();
    msg.append(text);
    msg
}

/// The message of an error that came from redis: `Redis error: ` and the
/// error's `Debug` text.
pub fn redis_error_message(e: &RedisError) -> (msg: String)
    ensures
        redis_error_prefix().is_prefix_of(msg@),
{
    let text = redis_error_debug_text(e);
    let msg = redis_error_message_of(text.as_str());
    assert(msg@.subrange(0, redis_error_prefix().len() as int) =~= redis_error_prefix());
    msg
}

impl RdLockError {
    /// The redis error that caused this error, if it came from redis.
    pub fn redis_source(&self) -> (source: Option<&RedisError>)
        ensures
            match self {
                RdLockError::RedisError(e) => source == Some(e),
                _ => source is None,
            },
    {
        match self {
            RdLockError::RedisError(e) => Some(e),
            _ => None,
        }
    }

    /// The human readable message of the error.
    pub fn message(&self) -> (msg: String)
        ensures
            match self {
                RdLockError::RedisError(_) => redis_error_prefix().is_prefix_of(msg@),
                _ => msg@ == fixed_message(*self),
            },
    {
        match self {
            RdLockError::RedisError(e) => redis_error_message(e),
            RdLockError::LockUnavailable => "LockUnavailable".to_owned(),
            RdLockError::TimeoutReached => "TimeoutReached".to_owned(),
            RdLockError::LockNotAcquired => "LockNotAcquired: The lock is currently not acquired".to_owned(),
            RdLockError::ConnectionError => "ConnectionError".to_owned(),
            RdLockError::InitCheckFailed => "InitCheckFailed: redis does not support distributed locks. Check README.md and make sure notify-keyspace-events is set".to_owned(),
        }
    }
}

} // verus!
