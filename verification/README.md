# rdlock

Distributed locks kept in redis, with their decisions proved in Verus.

- `src/` is the verified library. A lock operation is a step function: it
  performs the local TTL check and says either that it is done (with its
  result) or which redis request it needs (`RedisRequest`). A second function
  takes redis's reply and says what it does to the lock. The wait of
  `lock_timeout` is a decision function over its events (`wait_step`).
  - `lib.rs`: the lock key of a name, `LockState`.
  - `errors.rs`: `RdLockError` and its messages.
  - `utils.rs`: key layout, lock versions, reading redis replies.
  - `text.rs`: Unicode white space, trimming, string equality.
  - `lock/basic_lock.rs`: `BasicLock`, its model and its laws.
  - `lock/mod.rs`: `Lock`.
- `app/` runs the requests against redis (`redis`, `tokio`), with the
  connection manager and the bb8 pool.
