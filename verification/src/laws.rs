//! What holds of every status check.

use vstd::prelude::*;
use crate::batch::ReleasedLockView;
use crate::engine::{check_outcome, Outcome};
use crate::records::{Error, Lock, Modify, TxnStatus, Write, WriteEntry, WriteType};
use crate::state::{
    commit_record, lemma_commit_record, lemma_commit_record_after_write,
    lemma_commit_record_of_other, lemma_with_write_newest_first, KeyStateView,
};
use crate::timestamp::{
    lemma_physical_monotonic, spec_observed_max_ts, TimeStamp, TimestampAuthority,
};

verus! {

/// Applying no mutation changes nothing; applying one or two mutations is
/// applying each in turn.
pub proof fn lemma_apply_short(state: KeyStateView, ms: Seq<Modify>)
    requires
        ms.len() <= 2,
    ensures
        state.apply(ms) == if ms.len() == 0 {
            state
        } else if ms.len() == 1 {
            state.apply_one(ms[0])
        } else {
            state.apply_one(ms[0]).apply_one(ms[1])
        },
{
    reveal_with_fuel(KeyStateView::apply, 3);
    if ms.len() == 2 {
        assert(ms.drop_first().drop_first().len() == 0);
    }
}

/// A check decides on at most two mutations, so applying them is applying
/// each in turn.
pub proof fn lemma_apply_outcome(
    state: KeyStateView,
    key: Seq<u8>,
    lock_ts: TimeStamp,
    caller_start_ts: TimeStamp,
    current_ts: TimeStamp,
    rollback_if_not_exist: bool,
)
    ensures
        match check_outcome(state, key, lock_ts, caller_start_ts, current_ts, rollback_if_not_exist) {
            Ok(o) => {
                let ms = o.modifies;
                &&& ms.len() <= 2
                &&& state.apply(ms) == if ms.len() == 0 {
                    state
                } else if ms.len() == 1 {
                    state.apply_one(ms[0])
                } else {
                    state.apply_one(ms[0]).apply_one(ms[1])
                }
            },
            Err(_) => true,
        },
{
    match check_outcome(state, key, lock_ts, caller_start_ts, current_ts, rollback_if_not_exist) {
        Ok(o) => lemma_apply_short(state, o.modifies),
        Err(_) => {},
    }
}

/// A lock that has made no promise is never given one: after any check the
/// lock, where one is reported or left on the key, still has a promise of
/// zero.
pub proof fn law_legacy_lock_is_never_pushed(
    state: KeyStateView,
    key: Seq<u8>,
    lock_ts: TimeStamp,
    caller_start_ts: TimeStamp,
    current_ts: TimeStamp,
    rollback_if_not_exist: bool,
)
    requires
        state.lock is Some,
        state.lock->Some_0.min_commit_ts.is_zero(),
    ensures
        match check_outcome(state, key, lock_ts, caller_start_ts, current_ts, rollback_if_not_exist) {
            Ok(o) => {
                &&& o.status matches TxnStatus::Uncommitted { lock, min_commit_ts_pushed }
                    ==> lock.min_commit_ts.is_zero()
                &&& state.apply(o.modifies).lock matches Some(l) ==> l.min_commit_ts.is_zero()
            },
            Err(_) => true,
        },
{
    lemma_apply_outcome(state, key, lock_ts, caller_start_ts, current_ts, rollback_if_not_exist);
}

/// A caller whose start timestamp is "no upper bound" and who finds the live
/// lock of a transaction that is not an async-commit one is told that the
/// promise was pushed, and the check writes nothing.
pub proof fn law_unbounded_caller_sees_push(
    state: KeyStateView,
    key: Seq<u8>,
    lock_ts: TimeStamp,
    caller_start_ts: TimeStamp,
    current_ts: TimeStamp,
    rollback_if_not_exist: bool,
)
    requires
        caller_start_ts.is_max(),
        state.lock matches Some(l) ==> !l.use_async_commit,
    ensures
        match check_outcome(state, key, lock_ts, caller_start_ts, current_ts, rollback_if_not_exist) {
            Ok(o) => o.status matches TxnStatus::Uncommitted { lock, min_commit_ts_pushed } ==> {
                &&& min_commit_ts_pushed
                &&& Some(lock) == state.lock
                &&& o.modifies == Seq::<Modify>::empty()
                &&& state.apply(o.modifies) == state
            },
            Err(_) => true,
        },
{
    lemma_apply_outcome(state, key, lock_ts, caller_start_ts, current_ts, rollback_if_not_exist);
}

/// After a check that reports a live lock, the lock on the key is the lock
/// that was reported, promise included.
pub proof fn law_reported_lock_is_stored(
    state: KeyStateView,
    key: Seq<u8>,
    lock_ts: TimeStamp,
    caller_start_ts: TimeStamp,
    current_ts: TimeStamp,
    rollback_if_not_exist: bool,
)
    ensures
        match check_outcome(state, key, lock_ts, caller_start_ts, current_ts, rollback_if_not_exist) {
            Ok(o) => o.status matches TxnStatus::Uncommitted { lock, min_commit_ts_pushed } ==> {
                &&& state.apply(o.modifies).lock == Some(lock)
                &&& state.apply(o.modifies).writes == state.writes
            },
            Err(_) => true,
        },
{
    lemma_apply_outcome(state, key, lock_ts, caller_start_ts, current_ts, rollback_if_not_exist);
}

/// A check never lowers the promise of a lock: a lock that is on the key
/// before and after a check belongs to the same transaction and promises no
/// less than before. A check that fails writes nothing.
pub proof fn law_min_commit_ts_never_decreases(
    state: KeyStateView,
    key: Seq<u8>,
    lock_ts: TimeStamp,
    caller_start_ts: TimeStamp,
    current_ts: TimeStamp,
    rollback_if_not_exist: bool,
)
    ensures
        match check_outcome(state, key, lock_ts, caller_start_ts, current_ts, rollback_if_not_exist) {
            Ok(o) => match (state.lock, state.apply(o.modifies).lock) {
                (Some(before), Some(after)) => {
                    &&& after.min_commit_ts.0 >= before.min_commit_ts.0
                    &&& after == before.with_min_commit_ts(after.min_commit_ts)
                },
                (None, Some(_)) => false,
                _ => true,
            },
            Err(_) => true,
        },
{
    lemma_apply_outcome(state, key, lock_ts, caller_start_ts, current_ts, rollback_if_not_exist);
}

/// Waiters are released exactly when the check removes an expired lock, and
/// then the one released lock is the primary key's.
pub proof fn law_released_only_on_expiry(
    state: KeyStateView,
    key: Seq<u8>,
    lock_ts: TimeStamp,
    caller_start_ts: TimeStamp,
    current_ts: TimeStamp,
    rollback_if_not_exist: bool,
)
    ensures
        match check_outcome(state, key, lock_ts, caller_start_ts, current_ts, rollback_if_not_exist) {
            Ok(o) => if o.status == TxnStatus::TtlExpire {
                &&& state.lock matches Some(l) && l.ts == lock_ts && o.released == seq![
                    ReleasedLockView { key, pessimistic: l.is_pessimistic_txn() },
                ]
            } else {
                o.released == Seq::<ReleasedLockView>::empty()
            },
            Err(e) => e == (Error::TxnNotFound { start_ts: lock_ts }),
        },
{
}

/// After a check has removed an expired lock, the key is unlocked and holds
/// the rollback marker of the transaction at its start timestamp. Every
/// later check of the same transaction then finds it rolled back, writes
/// nothing and releases nobody.
pub proof fn law_expiry_is_idempotent(
    state: KeyStateView,
    key: Seq<u8>,
    lock_ts: TimeStamp,
    caller_start_ts: TimeStamp,
    current_ts: TimeStamp,
    rollback_if_not_exist: bool,
    later_caller_start_ts: TimeStamp,
    later_current_ts: TimeStamp,
    later_rollback_if_not_exist: bool,
)
    requires
        state.wf(),
        check_outcome(state, key, lock_ts, caller_start_ts, current_ts, rollback_if_not_exist)
            matches Ok(o) && o.status == TxnStatus::TtlExpire,
    ensures
        ({
            let first = check_outcome(
                state,
                key,
                lock_ts,
                caller_start_ts,
                current_ts,
                rollback_if_not_exist,
            )->Ok_0;
            let after = state.apply(first.modifies);
            &&& after.lock is None
            &&& commit_record(after.writes, lock_ts) matches Some(e) && e.commit_ts == lock_ts
                && e.write.is_rollback()
            &&& check_outcome(
                after,
                key,
                lock_ts,
                later_caller_start_ts,
                later_current_ts,
                later_rollback_if_not_exist,
            ) == Ok::<Outcome, Error>(
                Outcome {
                    status: TxnStatus::RolledBack,
                    modifies: Seq::empty(),
                    released: Seq::empty(),
                },
            )
        }),
{
    let write = Write::rollback(lock_ts, state.lock->Some_0.is_pessimistic_txn());
    lemma_apply_outcome(state, key, lock_ts, caller_start_ts, current_ts, rollback_if_not_exist);
    lemma_commit_record_after_write(state.writes, WriteEntry { commit_ts: lock_ts, write });
}

/// After a check has found neither lock nor record and left a rollback
/// marker, the key holds a protected rollback marker of the transaction at
/// its start timestamp, and every later check of the same transaction finds
/// it rolled back and writes nothing.
pub proof fn law_missing_lock_rollback_is_final(
    state: KeyStateView,
    key: Seq<u8>,
    lock_ts: TimeStamp,
    caller_start_ts: TimeStamp,
    current_ts: TimeStamp,
    later_caller_start_ts: TimeStamp,
    later_current_ts: TimeStamp,
    later_rollback_if_not_exist: bool,
)
    requires
        check_outcome(state, key, lock_ts, caller_start_ts, current_ts, true) matches Ok(o)
            && o.status == TxnStatus::LockNotExist,
    ensures
        ({
            let first = check_outcome(state, key, lock_ts, caller_start_ts, current_ts, true)->Ok_0;
            let after = state.apply(first.modifies);
            &&& after.lock == state.lock
            &&& commit_record(after.writes, lock_ts) == Some(
                WriteEntry { commit_ts: lock_ts, write: Write::rollback(lock_ts, true) },
            )
            &&& check_outcome(
                after,
                key,
                lock_ts,
                later_caller_start_ts,
                later_current_ts,
                later_rollback_if_not_exist,
            ) == Ok::<Outcome, Error>(
                Outcome {
                    status: TxnStatus::RolledBack,
                    modifies: Seq::empty(),
                    released: Seq::empty(),
                },
            )
        }),
{
    let write = Write::rollback(lock_ts, true);
    lemma_apply_outcome(state, key, lock_ts, caller_start_ts, current_ts, true);
    lemma_commit_record_after_write(state.writes, WriteEntry { commit_ts: lock_ts, write });
}

/// A check keeps the records of a key well formed: they stay ordered, and
/// the key holds a lock only of a transaction without a terminal record.
pub proof fn law_check_preserves_wf(
    state: KeyStateView,
    key: Seq<u8>,
    lock_ts: TimeStamp,
    caller_start_ts: TimeStamp,
    current_ts: TimeStamp,
    rollback_if_not_exist: bool,
)
    requires
        state.wf(),
    ensures
        match check_outcome(state, key, lock_ts, caller_start_ts, current_ts, rollback_if_not_exist) {
            Ok(o) => state.apply(o.modifies).wf(),
            Err(_) => true,
        },
{
    lemma_apply_outcome(state, key, lock_ts, caller_start_ts, current_ts, rollback_if_not_exist);
    match check_outcome(state, key, lock_ts, caller_start_ts, current_ts, rollback_if_not_exist) {
        Ok(o) => {
            if o.modifies.len() > 0 {
                if let Modify::PutWrite { commit_ts, write } = o.modifies[0] {
                    let e = WriteEntry { commit_ts, write };
                    lemma_with_write_newest_first(state.writes, e);
                    if let Some(l) = state.lock {
                        if l.ts != lock_ts {
                            lemma_commit_record(state.writes, l.ts);
                            lemma_commit_record_of_other(state.writes, e, l.ts);
                        }
                    }
                }
            }
        },
        Err(_) => {},
    }
}

/// Reporting a timestamp to the authority never lowers the watermark, and
/// reporting it a second time changes nothing.
pub proof fn law_watermark_is_monotonic(before: TimeStamp, ts: TimeStamp)
    ensures
        TimestampAuthority::raised(before, ts).0 >= before.0,
        TimestampAuthority::raised(TimestampAuthority::raised(before, ts), ts)
            == TimestampAuthority::raised(before, ts),
        !ts.is_max() ==> TimestampAuthority::raised(before, ts).0 >= ts.0,
{
}

/// The timestamp that a check reports is one of its three timestamps, lies
/// at or above the examined transaction's start timestamp, and at or above
/// each of the caller's two timestamps that is a real clock value.
pub proof fn law_observed_max_ts(
    lock_ts: TimeStamp,
    caller_start_ts: TimeStamp,
    current_ts: TimeStamp,
)
    ensures
        ({
            let m = spec_observed_max_ts(lock_ts, caller_start_ts, current_ts);
            &&& m == lock_ts || m == caller_start_ts || m == current_ts
            &&& m.0 >= lock_ts.0
            &&& !caller_start_ts.is_max() ==> m.0 >= caller_start_ts.0
            &&& !current_ts.is_max() ==> m.0 >= current_ts.0
            &&& m.is_max() ==> lock_ts.is_max()
        }),
{
}

/// The lock of an async-commit transaction is never touched by a check,
/// whatever timestamps the caller gives: it is neither pushed nor found
/// expired, and is reported as it is.
pub proof fn law_async_commit_lock_is_not_pushed(
    state: KeyStateView,
    key: Seq<u8>,
    lock_ts: TimeStamp,
    caller_start_ts: TimeStamp,
    current_ts: TimeStamp,
    rollback_if_not_exist: bool,
)
    requires
        state.lock matches Some(l) && l.ts == lock_ts && l.use_async_commit,
    ensures
        check_outcome(state, key, lock_ts, caller_start_ts, current_ts, rollback_if_not_exist)
            == Ok::<Outcome, Error>(
            Outcome {
                status: TxnStatus::Uncommitted {
                    lock: state.lock->Some_0,
                    min_commit_ts_pushed: false,
                },
                modifies: Seq::empty(),
                released: Seq::empty(),
            },
        ),
{
    assert(0u64 >> 18 == 0) by (bit_vector);
}

/// A decision, once recorded, is final: where a transaction has a terminal
/// record, every later check leaves that record the transaction's terminal
/// record. The check may be of any transaction, as long as no record of
/// another transaction is stored at the very version at which the checked
/// one started.
pub proof fn law_terminal_record_is_final(
    state: KeyStateView,
    key: Seq<u8>,
    decided_ts: TimeStamp,
    lock_ts: TimeStamp,
    caller_start_ts: TimeStamp,
    current_ts: TimeStamp,
    rollback_if_not_exist: bool,
)
    requires
        state.wf(),
        commit_record(state.writes, decided_ts) is Some,
        forall|i: int|
            0 <= i < state.writes.len() && (#[trigger] state.writes[i]).commit_ts == lock_ts
                ==> state.writes[i].write.start_ts == lock_ts,
    ensures
        match check_outcome(state, key, lock_ts, caller_start_ts, current_ts, rollback_if_not_exist) {
            Ok(o) => commit_record(state.apply(o.modifies).writes, decided_ts) == commit_record(
                state.writes,
                decided_ts,
            ),
            Err(_) => true,
        },
{
    lemma_apply_outcome(state, key, lock_ts, caller_start_ts, current_ts, rollback_if_not_exist);
    match check_outcome(state, key, lock_ts, caller_start_ts, current_ts, rollback_if_not_exist) {
        Ok(o) => {
            if o.modifies.len() > 0 {
                if let Modify::PutWrite { commit_ts, write } = o.modifies[0] {
                    lemma_commit_record_of_other(
                        state.writes,
                        WriteEntry { commit_ts, write },
                        decided_ts,
                    );
                }
            }
        },
        Err(_) => {},
    }
}

/// Where the transaction holds no lock on the key and has a terminal
/// record, the record alone decides, whatever the caller's timestamps and
/// policy: a rollback marker gives `RolledBack`, every other record gives
/// `Committed` at the record's version. Nothing is written and nobody is
/// released.
pub proof fn law_terminal_record_decides(
    state: KeyStateView,
    key: Seq<u8>,
    lock_ts: TimeStamp,
    caller_start_ts: TimeStamp,
    current_ts: TimeStamp,
    rollback_if_not_exist: bool,
)
    requires
        state.lock_of(lock_ts) is None,
        commit_record(state.writes, lock_ts) is Some,
    ensures
        ({
            let e = commit_record(state.writes, lock_ts)->Some_0;
            let status = if e.write.write_type == WriteType::Rollback {
                TxnStatus::RolledBack
            } else {
                TxnStatus::Committed { commit_ts: e.commit_ts }
            };
            &&& e.write.start_ts == lock_ts
            &&& e.commit_ts.0 >= lock_ts.0
            &&& check_outcome(
                state,
                key,
                lock_ts,
                caller_start_ts,
                current_ts,
                rollback_if_not_exist,
            ) == Ok::<Outcome, Error>(
                Outcome { status, modifies: Seq::empty(), released: Seq::empty() },
            )
        }),
{
    lemma_commit_record(state.writes, lock_ts);
}

/// A check writes a rollback marker only for the transaction it examines,
/// at that transaction's start timestamp, and only where the transaction
/// has no terminal record: what has committed is never rolled back.
pub proof fn law_no_rollback_of_decided_transaction(
    state: KeyStateView,
    key: Seq<u8>,
    lock_ts: TimeStamp,
    caller_start_ts: TimeStamp,
    current_ts: TimeStamp,
    rollback_if_not_exist: bool,
)
    requires
        state.wf(),
    ensures
        match check_outcome(state, key, lock_ts, caller_start_ts, current_ts, rollback_if_not_exist) {
            Ok(o) => forall|i: int|
                0 <= i < o.modifies.len() ==> match #[trigger] o.modifies[i] {
                    Modify::PutWrite { commit_ts, write } => {
                        &&& commit_ts == lock_ts
                        &&& write.start_ts == lock_ts
                        &&& write.is_rollback()
                        &&& commit_record(state.writes, lock_ts) is None
                    },
                    Modify::PutLock { lock } => state.lock matches Some(l) && lock.ts == l.ts,
                    Modify::DeleteLock => state.lock matches Some(l) && l.ts == lock_ts,
                },
            Err(_) => true,
        },
{
}

/// A check never overwrites a write record: where no record of another
/// transaction is stored at the version at which the examined transaction
/// started, the version that a check writes at holds no record.
pub proof fn law_check_overwrites_no_record(
    state: KeyStateView,
    key: Seq<u8>,
    lock_ts: TimeStamp,
    caller_start_ts: TimeStamp,
    current_ts: TimeStamp,
    rollback_if_not_exist: bool,
)
    requires
        state.wf(),
        forall|i: int|
            0 <= i < state.writes.len() && (#[trigger] state.writes[i]).commit_ts == lock_ts
                ==> state.writes[i].write.start_ts == lock_ts,
    ensures
        match check_outcome(state, key, lock_ts, caller_start_ts, current_ts, rollback_if_not_exist) {
            Ok(o) => forall|k: int, i: int|
                0 <= k < o.modifies.len() && 0 <= i < state.writes.len() ==> match #[trigger] o.modifies[k] {
                    Modify::PutWrite { commit_ts, write } => (#[trigger] state.writes[i]).commit_ts
                        != commit_ts,
                    _ => true,
                },
            Err(_) => true,
        },
{
    lemma_commit_record(state.writes, lock_ts);
}

/// One status check of a transaction, without the key.
pub ghost struct CheckRequest {
    pub lock_ts: TimeStamp,
    pub caller_start_ts: TimeStamp,
    pub current_ts: TimeStamp,
    pub rollback_if_not_exist: bool,
}

/// The records of the key after the check `req` and the mutations it
/// decided on. A check that fails leaves them as they were.
pub open spec fn after_check(state: KeyStateView, key: Seq<u8>, req: CheckRequest) -> KeyStateView {
    match check_outcome(
        state,
        key,
        req.lock_ts,
        req.caller_start_ts,
        req.current_ts,
        req.rollback_if_not_exist,
    ) {
        Ok(o) => state.apply(o.modifies),
        Err(_) => state,
    }
}

/// The records of the key after the checks `reqs`, one after the other.
pub open spec fn after_checks(
    state: KeyStateView,
    key: Seq<u8>,
    reqs: Seq<CheckRequest>,
) -> KeyStateView
    decreases reqs.len(),
{
    if reqs.len() == 0 {
        state
    } else {
        after_checks(after_check(state, key, reqs[0]), key, reqs.drop_first())
    }
}

/// `after` is what checks may make of `before`: no lock appears, and a lock
/// that stays is the same lock with a promise that is no lower.
pub open spec fn lock_only_pushed(before: Option<Lock>, after: Option<Lock>) -> bool {
    match (before, after) {
        (Some(b), Some(a)) => a.min_commit_ts.0 >= b.min_commit_ts.0 && a == b.with_min_commit_ts(
            a.min_commit_ts,
        ),
        (None, Some(_)) => false,
        _ => true,
    }
}

/// Over any sequence of checks the promise of a lock never decreases: the
/// lock left on the key at the end, if any, is the lock that was there at
/// the start, with a promise at or above the first.
pub proof fn law_min_commit_ts_monotonic_over_checks(
    state: KeyStateView,
    key: Seq<u8>,
    reqs: Seq<CheckRequest>,
)
    ensures
        lock_only_pushed(state.lock, after_checks(state, key, reqs).lock),
    decreases reqs.len(),
{
    if reqs.len() > 0 {
        let req = reqs[0];
        law_min_commit_ts_never_decreases(
            state,
            key,
            req.lock_ts,
            req.caller_start_ts,
            req.current_ts,
            req.rollback_if_not_exist,
        );
        law_min_commit_ts_monotonic_over_checks(after_check(state, key, req), key, reqs.drop_first());
    }
}

/// A lock that is expired at one time is expired at every later time, and
/// whether it is expired depends on the physical part of the time alone.
pub proof fn law_expiry_is_monotonic(lock: Lock, earlier: TimeStamp, later: TimeStamp)
    requires
        earlier.0 <= later.0,
    ensures
        lock.is_expired(earlier) ==> lock.is_expired(later),
        earlier.spec_physical() == later.spec_physical() ==> lock.is_expired(earlier)
            == lock.is_expired(later),
{
    lemma_physical_monotonic(earlier, later);
}

} // verus!
