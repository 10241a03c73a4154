use rdlock::errors::RdLockError;
use rdlock::get_lock_file;
use rdlock::lock::Lock;
use rdlock::utils::{
    config_get_request, get_redis_lock_location, redis_config_value, redis_remove_outcome,
    redis_set_nx_outcome, LockVersion, LockVersionParseError, RedisRequest, DEFAULT_LOCK_VERSION,
};
use rdlock::LockState;

fn io_error() -> redis::RedisError {
    redis::RedisError::from((redis::ErrorKind::IoError, "connection refused"))
}

#[test]
fn lock_file_path() {
    assert_eq!(get_lock_file(&"test_lock".to_string()), "/rdlock/test_lock/.lock");
    assert_eq!(get_lock_file(&"my_lock".to_string()), "/rdlock/my_lock/.lock");
    assert_eq!(get_lock_file(&String::new()), "/rdlock//.lock");
}

#[test]
fn lock_location_pair() {
    let (lock_file, data_file) = get_redis_lock_location("my_lock");
    assert_eq!(lock_file, "/rdlock/my_lock/.lock");
    assert_eq!(data_file, "/rdlock/my_lock/data");
    assert_eq!(lock_file, get_lock_file(&"my_lock".to_string()));
}

#[test]
fn distinct_ids_distinct_keys() {
    let a = get_lock_file(&"a".to_string());
    let b = get_lock_file(&"a/".to_string());
    assert_ne!(a, b);
    let (lock_a, _) = get_redis_lock_location("x");
    let (_, data_b) = get_redis_lock_location("x");
    assert_ne!(lock_a, data_b);
}

#[test]
fn lock_version_parse() {
    assert!(matches!(LockVersion::parse("V1"), Ok(LockVersion::V1)));
    assert!(matches!(LockVersion::parse("  V1 \n"), Ok(LockVersion::V1)));
    assert!(matches!(LockVersion::parse("\u{3000}V1\t"), Ok(LockVersion::V1)));
    assert!(matches!(LockVersion::parse("v1"), Err(LockVersionParseError::UnknownVersion)));
    assert!(matches!(LockVersion::parse("V 1"), Err(LockVersionParseError::UnknownVersion)));
    assert!(matches!(LockVersion::parse(""), Err(LockVersionParseError::UnknownVersion)));
    assert!(matches!("V1".parse::<LockVersion>(), Ok(LockVersion::V1)));
    assert!(matches!("V2".parse::<LockVersion>(), Err(LockVersionParseError::UnknownVersion)));
}

#[test]
fn lock_version_round_trip() {
    assert_eq!(DEFAULT_LOCK_VERSION.name(), "V1");
    assert!(matches!(LockVersion::parse(&LockVersion::V1.name()), Ok(LockVersion::V1)));
}

#[test]
fn set_nx_reply_outcomes() {
    assert_eq!(redis_set_nx_outcome(Ok(Some("OK".to_string()))), Ok(()));
    assert_eq!(redis_set_nx_outcome(Ok(None)), Err(RdLockError::LockUnavailable));
    assert_eq!(redis_set_nx_outcome(Err(io_error())), Err(RdLockError::LockUnavailable));
}

#[test]
fn remove_reply_outcomes() {
    assert!(redis_remove_outcome(&Ok(1)));
    assert!(redis_remove_outcome(&Ok(0)));
    assert!(!redis_remove_outcome(&Err(io_error())));
}

#[test]
fn config_reply_values() {
    let reply = Ok(vec!["notify-keyspace-events".to_string(), "KEA".to_string()]);
    assert_eq!(redis_config_value(reply), Ok("KEA".to_string()));
    assert_eq!(redis_config_value(Ok(vec![])), Err(RdLockError::InitCheckFailed));
    assert!(matches!(redis_config_value(Err(io_error())), Err(RdLockError::RedisError(_))));
    match config_get_request("notify-keyspace-events") {
        RedisRequest::ConfigGet { key } => assert_eq!(key, "notify-keyspace-events"),
        _ => panic!("expected CONFIG GET"),
    }
}

#[test]
fn error_messages() {
    assert_eq!(RdLockError::LockUnavailable.message(), "LockUnavailable");
    assert_eq!(RdLockError::TimeoutReached.message(), "TimeoutReached");
    assert_eq!(
        RdLockError::LockNotAcquired.message(),
        "LockNotAcquired: The lock is currently not acquired"
    );
    assert_eq!(RdLockError::ConnectionError.message(), "ConnectionError");
    assert!(RdLockError::InitCheckFailed.message().starts_with("InitCheckFailed: "));
    let m = RdLockError::RedisError(io_error()).message();
    assert!(m.starts_with("Redis error: "));
    assert!(m.len() > "Redis error: ".len());
}

#[test]
fn from_redis_error_wraps() {
    let e: RdLockError = io_error().into();
    assert_eq!(e, RdLockError::RedisError(io_error()));
}

#[test]
fn lock_state_default_and_lock_new() {
    assert!(matches!(LockState::default(), LockState::Unlocked));
    let _lock = Lock::new((), "plain".to_string(), 60);
}

#[test]
fn redis_error_message_joins_prefix_and_text() {
    assert_eq!(
        rdlock::errors::redis_error_message_of("IoError: connection refused"),
        "Redis error: IoError: connection refused"
    );
    assert_eq!(rdlock::errors::redis_error_message_of(""), "Redis error: ");
    let e = io_error();
    assert_eq!(rdlock::errors::redis_error_message(&e), format!("Redis error: {:?}", e));
}

#[test]
fn redis_source_of_errors() {
    let e = RdLockError::RedisError(io_error());
    assert_eq!(e.redis_source(), Some(&io_error()));
    assert!(RdLockError::LockUnavailable.redis_source().is_none());
    assert!(RdLockError::ConnectionError.redis_source().is_none());
}
