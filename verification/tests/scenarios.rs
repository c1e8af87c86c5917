use txn_status::batch::{copy_key, ReleasedLock, ReleasedLocks, WriteBatch};
use txn_status::engine::{
    effective_ts, push_min_commit_ts, should_push, CheckTxnStatus, WriteResult,
};
use txn_status::records::{Error, Lock, Modify, TxnStatus, Write, WriteEntry, WriteType};
use txn_status::resolver::{check_txn_status_missing_lock, status_of_record, MissingLockAction};
use txn_status::state::KeyState;
use txn_status::timestamp::{observed_max_ts, TimeStamp, TimestampAuthority};

fn ts(physical: u64, logical: u64) -> TimeStamp {
    TimeStamp::compose(physical, logical)
}

fn check(
    state: &KeyState,
    lock_ts: TimeStamp,
    caller_start_ts: TimeStamp,
    current_ts: TimeStamp,
    rollback_if_not_exist: bool,
) -> Result<WriteResult, Error> {
    let mut authority = TimestampAuthority::new(TimeStamp::zero());
    CheckTxnStatus::new(b"k".to_vec(), lock_ts, caller_start_ts, current_ts, rollback_if_not_exist)
        .process_write(state, &mut authority)
}

fn large_txn_lock(start_ts: TimeStamp, ttl: u64) -> Lock {
    Lock::new(start_ts, ttl, TimeStamp::zero(), start_ts.next())
}

fn locked(lock: Lock) -> KeyState {
    let mut state = KeyState::new();
    state.put_lock(lock);
    state
}

#[test]
fn timestamp_parts() {
    let t = TimeStamp::compose(5, 7);
    assert_eq!(t.into_inner(), (5 << 18) + 7);
    assert_eq!(t.physical(), 5);
    assert_eq!(t.logical(), 7);
    assert_eq!(TimeStamp::new(262_144).physical(), 1);
    assert_eq!(TimeStamp::new(262_143).physical(), 0);
    assert_eq!(TimeStamp::max().physical(), (1u64 << 46) - 1);
    assert_eq!(TimeStamp::compose(0x3fff_ffff_ffff, 0x3_ffff), TimeStamp::max());
    assert_eq!(t.next(), TimeStamp::compose(5, 8));
    assert_eq!(t.prev(), TimeStamp::compose(5, 6));
    assert_eq!(TimeStamp::from(9u64), TimeStamp::new(9));
    // A logical part beyond the logical bits carries into the physical part.
    assert_eq!(TimeStamp::compose(5, 262_144), TimeStamp::compose(6, 0));
    assert_eq!(TimeStamp::compose(0, u64::MAX), TimeStamp::max());
}

#[test]
fn timestamp_sentinels() {
    assert!(TimeStamp::zero().is_zero());
    assert!(!TimeStamp::zero().is_max());
    assert!(TimeStamp::max().is_max());
    assert!(!TimeStamp::max().is_zero());
    assert!(!TimeStamp::new(1).is_zero());
    assert!(TimeStamp::new(1) < TimeStamp::new(2));
    assert!(ts(1, 0) > ts(0, 262_143));
}

#[test]
fn observed_max_ts_skips_unbounded() {
    assert_eq!(observed_max_ts(ts(5, 0), ts(6, 0), ts(7, 0)), ts(7, 0));
    assert_eq!(observed_max_ts(ts(5, 0), ts(9, 0), ts(7, 0)), ts(9, 0));
    assert_eq!(observed_max_ts(ts(5, 0), TimeStamp::max(), ts(7, 0)), ts(7, 0));
    assert_eq!(observed_max_ts(ts(5, 0), ts(6, 0), TimeStamp::max()), ts(6, 0));
    assert_eq!(observed_max_ts(ts(5, 0), TimeStamp::max(), TimeStamp::max()), ts(5, 0));
    assert_eq!(observed_max_ts(ts(5, 0), TimeStamp::zero(), TimeStamp::zero()), ts(5, 0));
}

#[test]
fn watermark_only_rises() {
    let mut authority = TimestampAuthority::new(ts(10, 0));
    authority.update_max_ts(ts(5, 0));
    assert_eq!(authority.max_ts(), ts(10, 0));
    authority.update_max_ts(ts(20, 0));
    assert_eq!(authority.max_ts(), ts(20, 0));
    authority.update_max_ts(ts(20, 0));
    assert_eq!(authority.max_ts(), ts(20, 0));
    authority.update_max_ts(TimeStamp::max());
    assert_eq!(authority.max_ts(), ts(20, 0));
}

#[test]
fn check_reports_to_authority_even_when_it_fails() {
    let state = KeyState::new();
    let mut authority = TimestampAuthority::new(ts(1, 0));
    let r = CheckTxnStatus::new(b"k".to_vec(), ts(3, 0), ts(3, 1), ts(3, 2), false)
        .process_write(&state, &mut authority);
    assert!(r.is_err());
    assert_eq!(authority.max_ts(), ts(3, 2));

    let mut authority = TimestampAuthority::new(ts(50, 0));
    let r = CheckTxnStatus::new(b"k".to_vec(), ts(3, 0), TimeStamp::max(), ts(3, 2), true)
        .process_write(&state, &mut authority);
    assert!(r.is_ok());
    assert_eq!(authority.max_ts(), ts(50, 0));
}

#[test]
fn expiry_counts_physical_time_only() {
    let lock = large_txn_lock(ts(5, 0), 100);
    assert!(!lock.is_expired(ts(105, 0)));
    assert!(!lock.is_expired(ts(105, 262_143)));
    assert!(lock.is_expired(ts(106, 0)));
    assert!(!lock.is_expired(TimeStamp::zero()));
    let forever = large_txn_lock(ts(5, 0), u64::MAX);
    assert!(!forever.is_expired(TimeStamp::max()));
    let late = large_txn_lock(ts(5, 70), 0);
    assert!(!late.is_expired(ts(5, 200)));
    assert!(late.is_expired(ts(6, 0)));
}

#[test]
fn push_rule() {
    let lock = large_txn_lock(ts(5, 0), 100);
    assert!(should_push(lock, ts(5, 1)));
    assert!(!should_push(lock, ts(5, 0)));
    assert!(!should_push(lock, TimeStamp::max()));
    let legacy = Lock::new(ts(5, 0), 100, TimeStamp::zero(), TimeStamp::zero());
    assert!(!should_push(legacy, ts(9, 0)));
}

#[test]
fn push_takes_the_greater_of_next_and_current() {
    let lock = large_txn_lock(ts(5, 0), 100);
    let pushed = push_min_commit_ts(lock, ts(6, 0), ts(7, 0)).unwrap();
    assert_eq!(pushed.min_commit_ts, ts(7, 0));
    assert_eq!(pushed.ts, lock.ts);
    assert_eq!(pushed.ttl, lock.ttl);
    let pushed = push_min_commit_ts(lock, ts(9, 0), ts(8, 0)).unwrap();
    assert_eq!(pushed.min_commit_ts, ts(9, 1));
    let pushed = push_min_commit_ts(lock, ts(9, 0), ts(9, 1)).unwrap();
    assert_eq!(pushed.min_commit_ts, ts(9, 1));
    let pushed = push_min_commit_ts(lock, ts(9, 0), TimeStamp::max()).unwrap();
    assert_eq!(pushed.min_commit_ts, TimeStamp::max());
    let pushed = push_min_commit_ts(lock, TimeStamp::new(u64::MAX - 1), TimeStamp::zero()).unwrap();
    assert_eq!(pushed.min_commit_ts, TimeStamp::max());
}

#[test]
fn push_of_async_commit_lock_is_an_invariant_violation() {
    let lock = large_txn_lock(ts(5, 0), 100).into_async_commit();
    assert_eq!(push_min_commit_ts(lock, ts(6, 0), ts(7, 0)), Err(Error::InvariantViolation));
}

#[test]
fn async_commit_lock_ignores_caller_timestamps() {
    let lock = large_txn_lock(ts(5, 0), 100).into_async_commit();
    assert_eq!(effective_ts(lock, ts(9, 0)), TimeStamp::zero());
    assert_eq!(effective_ts(large_txn_lock(ts(5, 0), 100), ts(9, 0)), ts(9, 0));
    let state = locked(lock);
    let w = check(&state, ts(5, 0), ts(900, 0), ts(900, 0), true).unwrap();
    assert_eq!(w.txn_status, TxnStatus::uncommitted(lock, false));
    assert!(w.to_be_write.is_empty());
    assert!(w.released_locks.is_empty());
}

#[test]
fn live_lock_is_pushed_to_current_ts() {
    let lock = large_txn_lock(ts(5, 0), 100);
    assert_eq!(lock.min_commit_ts, ts(5, 1));
    let mut state = locked(lock);
    let w = check(&state, ts(5, 0), ts(6, 0), ts(7, 0), true).unwrap();
    let mut expected = lock;
    expected.min_commit_ts = ts(7, 0);
    assert_eq!(w.txn_status, TxnStatus::uncommitted(expected, true));
    assert_eq!(w.to_be_write.modifies, vec![Modify::PutLock { lock: expected }]);
    assert!(w.released_locks.is_empty());
    assert!(!w.needs_wake_up());
    assert_eq!(w.rows, 1);
    // Reading the lock again shows the promise that was reported.
    state.apply(&w.to_be_write);
    assert_eq!(state.load_lock(), Some(expected));
}

#[test]
fn expired_lock_is_rolled_back() {
    let lock = large_txn_lock(ts(5, 0), 100);
    let mut state = locked(lock);
    let w = check(&state, ts(5, 0), ts(6, 0), ts(7, 0), true).unwrap();
    state.apply(&w.to_be_write);

    let w = check(&state, ts(5, 0), ts(121, 0), ts(121, 0), true).unwrap();
    assert_eq!(w.txn_status, TxnStatus::TtlExpire);
    assert!(w.needs_wake_up());
    assert_eq!(
        w.to_be_write.modifies,
        vec![
            Modify::PutWrite { commit_ts: ts(5, 0), write: Write::rollback(ts(5, 0), false) },
            Modify::DeleteLock,
        ]
    );
    assert_eq!(w.released_locks.start_ts, ts(5, 0));
    assert_eq!(w.released_locks.commit_ts, TimeStamp::zero());
    assert_eq!(w.released_locks.locks.len(), 1);
    assert_eq!(w.released_locks.locks[0].key, b"k".to_vec());
    assert!(!w.released_locks.locks[0].pessimistic);
    assert!(!w.released_locks.is_pessimistic_txn());

    state.apply(&w.to_be_write);
    assert_eq!(state.load_lock(), None);
    let e = state.get_txn_commit_record(ts(5, 0)).unwrap();
    assert_eq!(e.commit_ts, ts(5, 0));
    assert_eq!(e.write.write_type, WriteType::Rollback);
    assert_eq!(e.write.start_ts, ts(5, 0));
}

#[test]
fn expired_pessimistic_lock_leaves_protected_rollback() {
    let lock = Lock::new(ts(150, 0), 100, ts(150, 0), ts(150, 1));
    assert!(lock.is_pessimistic_txn());
    let mut state = locked(lock);
    let w = check(&state, ts(150, 0), ts(160, 0), ts(260, 0), false).unwrap();
    assert_eq!(w.txn_status, TxnStatus::TtlExpire);
    assert!(w.released_locks.locks[0].pessimistic);
    assert!(w.released_locks.is_pessimistic_txn());
    state.apply(&w.to_be_write);
    assert_eq!(
        state.writes,
        vec![WriteEntry { commit_ts: ts(150, 0), write: Write::rollback(ts(150, 0), true) }]
    );
}

#[test]
fn expiry_twice_is_idempotent() {
    let mut state = locked(large_txn_lock(ts(5, 0), 100));
    let first = check(&state, ts(5, 0), ts(121, 0), ts(121, 0), false).unwrap();
    assert_eq!(first.txn_status, TxnStatus::TtlExpire);
    state.apply(&first.to_be_write);
    let writes = state.writes.clone();

    let second = check(&state, ts(5, 0), ts(121, 0), ts(121, 0), false).unwrap();
    assert_eq!(second.txn_status, TxnStatus::RolledBack);
    assert!(second.to_be_write.is_empty());
    assert!(second.released_locks.is_empty());
    assert!(!second.needs_wake_up());
    state.apply(&second.to_be_write);
    assert_eq!(state.writes, writes);
    assert_eq!(state.load_lock(), None);
}

#[test]
fn missing_lock_with_rollback_writes_protected_marker() {
    let mut state = KeyState::new();
    let w = check(&state, ts(3, 0), ts(3, 1), ts(3, 2), true).unwrap();
    assert_eq!(w.txn_status, TxnStatus::LockNotExist);
    assert_eq!(
        w.to_be_write.modifies,
        vec![Modify::PutWrite { commit_ts: ts(3, 0), write: Write::rollback(ts(3, 0), true) }]
    );
    assert!(w.released_locks.is_empty());
    state.apply(&w.to_be_write);
    assert_eq!(
        state.writes,
        vec![WriteEntry { commit_ts: ts(3, 0), write: Write::rollback(ts(3, 0), true) }]
    );

    // A second identical check does not fail: the marker now decides.
    let again = check(&state, ts(3, 0), ts(3, 1), ts(3, 2), true).unwrap();
    assert_eq!(again.txn_status, TxnStatus::RolledBack);
    assert!(again.to_be_write.is_empty());
    let again = check(&state, ts(3, 0), ts(3, 1), ts(3, 2), false).unwrap();
    assert_eq!(again.txn_status, TxnStatus::RolledBack);
}

#[test]
fn missing_lock_without_rollback_is_txn_not_found() {
    let state = KeyState::new();
    let r = check(&state, ts(3, 0), ts(3, 1), ts(3, 2), false);
    match r {
        Err(e) => assert_eq!(e, Error::TxnNotFound { start_ts: ts(3, 0) }),
        Ok(_) => panic!("a transaction that left nothing was found"),
    }
    assert_eq!(state.load_lock(), None);
    assert!(state.writes.is_empty());
}

#[test]
fn committed_transaction_reports_commit_ts() {
    let mut state = KeyState::new();
    state.put_write(ts(15, 0), Write::new(WriteType::Put, ts(5, 0)));
    let inputs = [
        (TimeStamp::zero(), TimeStamp::zero()),
        (ts(12, 0), ts(12, 0)),
        (ts(500, 0), ts(900, 0)),
        (TimeStamp::max(), TimeStamp::max()),
    ];
    for (caller_start_ts, current_ts) in inputs {
        for r in [false, true] {
            let w = check(&state, ts(5, 0), caller_start_ts, current_ts, r).unwrap();
            assert_eq!(w.txn_status, TxnStatus::committed(ts(15, 0)));
            assert!(w.to_be_write.is_empty());
            assert!(w.released_locks.is_empty());
        }
    }
}

#[test]
fn lock_of_another_transaction_is_ignored() {
    let other = large_txn_lock(ts(20, 0), 100);
    let mut state = locked(other);
    state.put_write(ts(15, 0), Write::new(WriteType::Delete, ts(5, 0)));
    let w = check(&state, ts(5, 0), ts(500, 0), ts(500, 0), false).unwrap();
    assert_eq!(w.txn_status, TxnStatus::committed(ts(15, 0)));
    let w = check(&state, ts(6, 0), ts(500, 0), ts(500, 0), true).unwrap();
    assert_eq!(w.txn_status, TxnStatus::LockNotExist);
    state.apply(&w.to_be_write);
    assert_eq!(state.load_lock(), Some(other));
    assert!(check(&state, ts(7, 0), ts(500, 0), ts(500, 0), false).is_err());
}

#[test]
fn legacy_lock_is_never_given_a_promise() {
    let lock = Lock::new(ts(290, 0), 100, ts(290, 0), TimeStamp::zero());
    let mut state = locked(lock);
    let callers = [TimeStamp::zero(), ts(300, 0), ts(390, 5), TimeStamp::max()];
    for caller_start_ts in callers {
        let w = check(&state, ts(290, 0), caller_start_ts, ts(300, 0), true).unwrap();
        assert_eq!(w.txn_status, TxnStatus::uncommitted(lock, caller_start_ts.is_max()));
        state.apply(&w.to_be_write);
        assert_eq!(state.load_lock().unwrap().min_commit_ts, TimeStamp::zero());
    }
}

#[test]
fn unbounded_caller_is_told_of_a_push() {
    let lock = large_txn_lock(ts(310, 0), 100);
    let mut state = locked(lock);
    let w = check(&state, ts(310, 0), TimeStamp::max(), ts(320, 0), false).unwrap();
    assert_eq!(w.txn_status, TxnStatus::uncommitted(lock, true));
    assert!(w.to_be_write.is_empty());
    state.apply(&w.to_be_write);
    assert_eq!(state.load_lock(), Some(lock));
}

#[test]
fn promise_never_decreases_over_checks() {
    let mut state = locked(large_txn_lock(ts(5, 0), 1000));
    let checks = [
        (ts(6, 0), ts(7, 0)),
        (ts(3, 0), ts(2, 0)),
        (ts(9, 0), ts(8, 0)),
        (TimeStamp::zero(), TimeStamp::zero()),
        (ts(8, 0), ts(10, 0)),
        (TimeStamp::max(), ts(50, 0)),
        (ts(11, 0), ts(9, 0)),
    ];
    let mut last = state.load_lock().unwrap().min_commit_ts;
    for (caller_start_ts, current_ts) in checks {
        let w = check(&state, ts(5, 0), caller_start_ts, current_ts, true).unwrap();
        state.apply(&w.to_be_write);
        let now = state.load_lock().unwrap().min_commit_ts;
        assert!(now >= last);
        last = now;
    }
    assert_eq!(last, ts(11, 1));
}

#[test]
fn status_of_terminal_records() {
    let put = WriteEntry { commit_ts: ts(15, 0), write: Write::new(WriteType::Put, ts(5, 0)) };
    let delete = WriteEntry { commit_ts: ts(16, 0), write: Write::new(WriteType::Delete, ts(5, 0)) };
    let lock = WriteEntry { commit_ts: ts(17, 0), write: Write::new(WriteType::Lock, ts(5, 0)) };
    let rollback = WriteEntry { commit_ts: ts(5, 0), write: Write::rollback(ts(5, 0), false) };
    assert_eq!(status_of_record(put), TxnStatus::Committed { commit_ts: ts(15, 0) });
    assert_eq!(status_of_record(delete), TxnStatus::Committed { commit_ts: ts(16, 0) });
    assert_eq!(status_of_record(lock), TxnStatus::Committed { commit_ts: ts(17, 0) });
    assert_eq!(status_of_record(rollback), TxnStatus::RolledBack);
    assert!(rollback.write.is_rollback());
    assert!(!put.write.is_rollback());
}

#[test]
fn missing_lock_actions() {
    assert_eq!(MissingLockAction::rollback(true), MissingLockAction::ProtectedRollback);
    assert_eq!(MissingLockAction::rollback(false), MissingLockAction::ReturnError);

    let mut state = KeyState::new();
    state.put_write(ts(4, 0), Write::new(WriteType::Put, ts(2, 0)));
    let mut batch = WriteBatch::new(b"k".to_vec());
    batch.unlock_key();
    let r = check_txn_status_missing_lock(&state, &mut batch, ts(3, 0), MissingLockAction::ReturnError);
    assert_eq!(r, Err(Error::TxnNotFound { start_ts: ts(3, 0) }));
    assert_eq!(batch.modifies, vec![Modify::DeleteLock]);
    let r = check_txn_status_missing_lock(
        &state,
        &mut batch,
        ts(3, 0),
        MissingLockAction::ProtectedRollback,
    );
    assert_eq!(r, Ok(TxnStatus::LockNotExist));
    assert_eq!(
        batch.modifies,
        vec![
            Modify::DeleteLock,
            Modify::PutWrite { commit_ts: ts(3, 0), write: Write::rollback(ts(3, 0), true) },
        ]
    );
    let r = check_txn_status_missing_lock(&state, &mut batch, ts(2, 0), MissingLockAction::ReturnError);
    assert_eq!(r, Ok(TxnStatus::Committed { commit_ts: ts(4, 0) }));
    assert_eq!(batch.modifies.len(), 2);
}

#[test]
fn commit_record_is_sought_from_start_ts_upwards() {
    let mut state = KeyState::new();
    // A record of the same start timestamp below it is no terminal record.
    state.put_write(ts(2, 0), Write::new(WriteType::Put, ts(5, 0)));
    assert_eq!(state.get_txn_commit_record(ts(5, 0)), None);
    state.put_write(ts(5, 0), Write::rollback(ts(5, 0), false));
    assert_eq!(
        state.get_txn_commit_record(ts(5, 0)),
        Some(WriteEntry { commit_ts: ts(5, 0), write: Write::rollback(ts(5, 0), false) })
    );
}

#[test]
fn write_records_are_kept_newest_first() {
    let mut state = KeyState::new();
    state.put_write(ts(15, 0), Write::new(WriteType::Put, ts(5, 0)));
    state.put_write(ts(140, 0), Write::new(WriteType::Put, ts(4, 0)));
    state.put_write(ts(20, 0), Write::rollback(ts(20, 0), false));
    state.put_write(ts(3, 0), Write::rollback(ts(3, 0), true));
    let versions: Vec<TimeStamp> = state.writes.iter().map(|e| e.commit_ts).collect();
    assert_eq!(versions, vec![ts(140, 0), ts(20, 0), ts(15, 0), ts(3, 0)]);
    // A record stored at a version that is taken replaces the record there.
    state.put_write(ts(20, 0), Write::rollback(ts(20, 0), true));
    assert_eq!(state.writes.len(), 4);
    assert_eq!(state.writes[1].write, Write::rollback(ts(20, 0), true));
}

#[test]
fn batch_applies_in_order() {
    let lock = large_txn_lock(ts(5, 0), 100);
    let mut batch = WriteBatch::new(b"k".to_vec());
    assert!(batch.is_empty());
    batch.put_lock(lock);
    batch.put_write(ts(5, 0), Write::rollback(ts(5, 0), false));
    batch.unlock_key();
    assert!(!batch.is_empty());
    let mut state = KeyState::new();
    state.apply(&batch);
    assert_eq!(state.load_lock(), None);
    assert_eq!(state.writes.len(), 1);

    let mut batch = WriteBatch::new(b"k".to_vec());
    batch.unlock_key();
    batch.put_lock(lock);
    state.apply(&batch);
    assert_eq!(state.load_lock(), Some(lock));
}

#[test]
fn released_locks_accumulate() {
    let mut released = ReleasedLocks::new(ts(5, 0), TimeStamp::zero());
    assert!(released.is_empty());
    released.push(None);
    assert!(released.is_empty());
    released.push(Some(ReleasedLock::new(b"a".to_vec(), false)));
    assert!(!released.is_pessimistic_txn());
    released.push(Some(ReleasedLock::new(b"b".to_vec(), true)));
    assert!(released.is_pessimistic_txn());
    assert_eq!(released.locks.len(), 2);
    assert_eq!(released.locks[0].key, b"a".to_vec());
    assert_eq!(released.locks[1].key, b"b".to_vec());
}

#[test]
fn copy_key_copies() {
    let key = b"primary".to_vec();
    assert_eq!(copy_key(&key), key);
    assert_eq!(copy_key(&Vec::new()), Vec::<u8>::new());
}
