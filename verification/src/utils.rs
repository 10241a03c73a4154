//! Redis key layout, lock versions and the reading of redis replies.
use vstd::prelude::*;
use vstd::string::*;

use redis::RedisError;

use crate::errors::{RdLockError, RdLockResult};
use crate::text::{trim, trim_white_space, str_equal};

verus! {

/// The key under which the lock `id` is stored.
pub open spec fn lock_path(id: Seq<char>) -> Seq<char> {
    "/rdlock/"@ + id + "/.lock"@
}

/// The key under which the data guarded by the lock `id` is stored.
pub open spec fn data_path(id: Seq<char>) -> Seq<char> {
    "/rdlock/"@ + id + "/data"@
}

/// Two different lock names never share a lock key.
pub proof fn lemma_lock_path_injective(a: Seq<char>, b: Seq<char>)
    ensures
        lock_path(a) == lock_path(b) ==> a == b,
{
    reveal_strlit("/rdlock/");
    reveal_strlit("/.lock");
    assert("/rdlock/"@.len() == 8);
    assert("/.lock"@.len() == 6);
    if lock_path(a) == lock_path(b) {
        assert(lock_path(a).len() == a.len() + 14);
        assert(lock_path(b).len() == b.len() + 14);
        assert(a.len() == b.len());
        assert forall|i: int| 0 <= i < a.len() implies a[i] == b[i] by {
            assert(lock_path(a)[8 + i] == a[i]);
            assert(lock_path(b)[8 + i] == b[i]);
        }
        assert(a =~= b);
    }
}

/// No lock key is ever the data key of a lock, whatever the two names.
pub proof fn lemma_lock_and_data_keys_differ(a: Seq<char>, b: Seq<char>)
    ensures
        lock_path(a) != data_path(b),
{
    reveal_strlit("/rdlock/");
    reveal_strlit("/.lock");
    reveal_strlit("/data");
    let la = lock_path(a);
    let db = data_path(b);
    assert(la[la.len() - 1] == 'k');
    assert(db[db.len() - 1] == 'a');
}

/// Returns `(lock_file, data_file)`, the two redis keys of the lock `id`.
pub fn get_redis_lock_location(id: &str) -> (files: (String, String))
    ensures
        files.0@ == lock_path(id@),
        files.1@ == data_path(id@),
{
    let mut lock_file = "/rdlock/".to_owned();
    lock_file.append(id);
    lock_file.append("/.lock");
    let mut data_file = "/rdlock/".to_owned();
    data_file.append(id);
    data_file.append("/data");
    (lock_file, data_file)
}

/// A request that a lock operation needs redis to carry out. The caller runs it
/// and hands the reply back to the operation.
pub enum RedisRequest {
    /// `SET key value NX EX expire_secs`: store `value` under `key` unless the key
    /// exists, and let it expire after `expire_secs` seconds.
    SetIfAbsent { key: String, value: String, expire_secs: u64 },
    /// `DEL key`.
    Delete { key: String },
    /// `PSUBSCRIBE pattern`: listen to the keyspace events of the keys that match.
    Subscribe { pattern: String },
    /// `CONFIG GET key`.
    ConfigGet { key: String },
}

/// A request as plain values.
pub enum RedisRequestView {
    SetIfAbsent { key: Seq<char>, value: Seq<char>, expire_secs: u64 },
    Delete { key: Seq<char> },
    Subscribe { pattern: Seq<char> },
    ConfigGet { key: Seq<char> },
}

impl View for RedisRequest {
    type V = RedisRequestView;

    open spec fn view(&self) -> RedisRequestView {
        match self {
            RedisRequest::SetIfAbsent { key, value, expire_secs } => RedisRequestView::SetIfAbsent {
                key: key@,
                value: value@,
                expire_secs: *expire_secs,
            },
            RedisRequest::Delete { key } => RedisRequestView::Delete { key: key@ },
            RedisRequest::Subscribe { pattern } => RedisRequestView::Subscribe { pattern: pattern@ },
            RedisRequest::ConfigGet { key } => RedisRequestView::ConfigGet { key: key@ },
        }
    }
}

/// The version of the lock format, stored as the value of each lock key.
#[derive(Debug)]
pub enum LockVersion {
    V1,
}

/// Why a text is not a lock version.
#[derive(Debug)]
pub enum LockVersionParseError {
    UnknownVersion,
}

/// The version that this library writes.
pub const DEFAULT_LOCK_VERSION: LockVersion = LockVersion::V1;

/// The text of a lock version, as it is stored in redis.
pub open spec fn version_name(v: LockVersion) -> Seq<char> {
    match v {
        LockVersion::V1 => "V1"@,
    }
}

/// The version that a text names, white space around it aside.
pub open spec fn parse_version(s: Seq<char>) -> Result<LockVersion, LockVersionParseError> {
    if trim(s) == version_name(LockVersion::V1) {
        Ok(LockVersion::V1)
    } else {
        Err(LockVersionParseError::UnknownVersion)
    }
}

impl LockVersion {
    /// The text of the version, as it is stored in redis.
    pub fn name(&self) -> (text: String)
        ensures
            text@ == version_name(*self),
    {
        match self {
            LockVersion::V1 => "V1".to_owned(),
        }
    }

    /// Reads a version from a text, ignoring white space around it.
    pub fn parse(s: &str) -> (v: Result<LockVersion, LockVersionParseError>)
        ensures
            v == parse_version(s@),
    {
        let t = trim_white_space(s);
        if str_equal(t, "V1") {
            Ok(LockVersion::V1)
        } else {
            Err(LockVersionParseError::UnknownVersion)
        }
    }
}

impl std::str::FromStr for LockVersion {
    type Err = LockVersionParseError;

    /// Reads a version from a text, ignoring white space around it.
    fn from_str(s: &str) -> (v: Result<Self, Self::Err>)
        ensures
            v == parse_version(s@),
    {
        LockVersion::parse(s)
    }
}

/// Reading back the stored text of a version gives the version.
pub proof fn lemma_version_round_trip(v: LockVersion)
    ensures
        parse_version(version_name(v)) == Ok::<LockVersion, LockVersionParseError>(v),
{
    reveal_strlit("V1");
    let s = version_name(v);
    assert(s.len() == 2);
    assert(!crate::text::is_white_space(s[0]));
    assert(!crate::text::is_white_space(s.last()));
    assert(crate::text::trim_start(s) == s);
    assert(trim(s) == s);
}

/// What a reply to `SET .. NX` means for the lock: stored (`Some`) is success;
/// an existing key (`None`) or an error means the lock is unavailable.
pub open spec fn set_nx_outcome(reply: Result<Option<String>, RedisError>) -> RdLockResult {
    match reply {
        Ok(Some(_)) => Ok(()),
        _ => Err(RdLockError::LockUnavailable),
    }
}

/// Reads the reply to a `SET .. NX` request.
pub fn redis_set_nx_outcome(reply: Result<Option<String>, RedisError>) -> (r: RdLockResult)
    ensures
        r == set_nx_outcome(reply),
{
    match reply {
        Ok(Some(_)) => Ok(()),
        _ => Err(RdLockError::LockUnavailable),
    }
}

/// Reads the reply to a `DEL` request: whether the key is gone (removed, or it
/// was not there).
pub fn redis_remove_outcome(reply: &Result<i32, RedisError>) -> (removed: bool)
    ensures
        removed == reply is Ok,
{
    reply.is_ok()
}

/// The request that reads the redis configuration key `config_key`.
pub fn config_get_request(config_key: &str) -> (req: RedisRequest)
    ensures
        req@ == (RedisRequestView::ConfigGet { key: config_key@ }),
{
    RedisRequest::ConfigGet { key: config_key.to_owned() }
}

/// Reads the reply to `CONFIG GET`: the last string of the reply is the value.
/// An empty reply means that redis does not offer the key.
pub fn redis_config_value(reply: Result<Vec<String>, RedisError>) -> (value: Result<String, RdLockError>)
    ensures
        match reply {
            Err(e) => value == Err::<String, RdLockError>(RdLockError::RedisError(e)),
            Ok(v) => if v@.len() == 0 {
                value == Err::<String, RdLockError>(RdLockError::InitCheckFailed)
            } else {
                value is Ok && value->Ok_0@ == v@.last()@
            },
        },
{
    match reply {
        Err(e) => Err(RdLockError::from(e)),
        Ok(v) => {
            if v.len() == 0 {
                Err(RdLockError::InitCheckFailed)
            } else {
                Ok(v[v.len() - 1].clone())
            }
        },
    }
}

} // verus!
