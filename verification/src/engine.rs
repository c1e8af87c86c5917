//! The status check itself: what it decides about a primary lock, what it
//! writes, and whom it releases.

use vstd::prelude::*;
use crate::batch::{copy_key, ReleasedLock, ReleasedLockView, ReleasedLocks, WriteBatch};
use crate::records::{Error, Lock, Modify, TxnStatus, Write};
use crate::resolver::{check_txn_status_missing_lock, missing_lock_outcome, MissingLockAction};
use crate::state::{commit_record, KeyState, KeyStateView};
use crate::timestamp::{observed_max_ts, TimeStamp, TimestampAuthority};

verus! {

/// The timestamp that a check on `lock` works with in place of `ts`: the
/// lock of an async-commit transaction is examined as if the caller had
/// given no timestamps at all.
pub open spec fn spec_effective_ts(lock: Lock, ts: TimeStamp) -> TimeStamp {
    if lock.use_async_commit {
        TimeStamp(0)
    } else {
        ts
    }
}

#[verifier::when_used_as_spec(spec_effective_ts)]
pub fn effective_ts(lock: Lock, ts: TimeStamp) -> (r: TimeStamp)
    ensures
        r == spec_effective_ts(lock, ts),
{
    if lock.use_async_commit {
        TimeStamp::zero()
    } else {
        ts
    }
}

/// The promise of `lock` is pushed forward for a caller that started at
/// `caller_start_ts` when the lock has made a promise, the caller's
/// timestamp is a real clock value, and the promise does not lie above it.
pub open spec fn spec_should_push(lock: Lock, caller_start_ts: TimeStamp) -> bool {
    &&& !lock.min_commit_ts.is_zero()
    &&& !caller_start_ts.is_max()
    &&& caller_start_ts.0 >= lock.min_commit_ts.0
}

#[verifier::when_used_as_spec(spec_should_push)]
pub fn should_push(lock: Lock, caller_start_ts: TimeStamp) -> (r: bool)
    ensures
        r == spec_should_push(lock, caller_start_ts),
{
    !lock.min_commit_ts.is_zero() && !caller_start_ts.is_max() && caller_start_ts.0
        >= lock.min_commit_ts.0
}

/// The promise after a push: the greater of the timestamp after
/// `caller_start_ts` and `current_ts`.
pub open spec fn pushed_min_commit_ts(caller_start_ts: TimeStamp, current_ts: TimeStamp) -> TimeStamp
    recommends
        !caller_start_ts.is_max(),
{
    if caller_start_ts.0 + 1 < current_ts.0 {
        current_ts
    } else {
        TimeStamp((caller_start_ts.0 + 1) as u64)
    }
}

/// Pushes the promise of `lock` forward. The lock of an async-commit
/// transaction has its promise fixed and is refused.
pub fn push_min_commit_ts(lock: Lock, caller_start_ts: TimeStamp, current_ts: TimeStamp) -> (r:
    Result<Lock, Error>)
    requires
        !caller_start_ts.is_max(),
    ensures
        lock.use_async_commit ==> r == Err::<Lock, Error>(Error::InvariantViolation),
        !lock.use_async_commit ==> r == Ok::<Lock, Error>(
            lock.with_min_commit_ts(pushed_min_commit_ts(caller_start_ts, current_ts)),
        ),
{
    if lock.use_async_commit {
        return Err(Error::InvariantViolation);
    }
    let mut pushed = lock;
    pushed.min_commit_ts = caller_start_ts.next();
    if pushed.min_commit_ts.0 < current_ts.0 {
        pushed.min_commit_ts = current_ts;
    }
    Ok(pushed)
}

/// What a status check decides.
pub ghost struct Outcome {
    pub status: TxnStatus,
    /// The mutations of the primary key, in order.
    pub modifies: Seq<Modify>,
    /// The locks whose waiters are to be woken.
    pub released: Seq<ReleasedLockView>,
}

/// The outcome of a check that finds `lock`, the lock of the examined
/// transaction, on the key.
///
/// An expired lock is rolled back: a rollback marker is written at the
/// lock's start timestamp, protected if the lock is pessimistic, the lock is
/// removed and its waiters are released. A live lock stays; its promise is
/// pushed forward where `spec_should_push` says so. A caller whose start
/// timestamp is "no upper bound" is told of a push although none is made.
pub open spec fn live_lock_outcome(
    key: Seq<u8>,
    lock: Lock,
    caller_start_ts: TimeStamp,
    current_ts: TimeStamp,
) -> Outcome {
    let caller = spec_effective_ts(lock, caller_start_ts);
    let current = spec_effective_ts(lock, current_ts);
    if lock.is_expired(current) {
        Outcome {
            status: TxnStatus::TtlExpire,
            modifies: seq![
                Modify::PutWrite {
                    commit_ts: lock.ts,
                    write: Write::rollback(lock.ts, lock.is_pessimistic_txn()),
                },
                Modify::DeleteLock,
            ],
            released: seq![ReleasedLockView { key, pessimistic: lock.is_pessimistic_txn() }],
        }
    } else if spec_should_push(lock, caller) {
        let pushed = lock.with_min_commit_ts(pushed_min_commit_ts(caller, current));
        Outcome {
            status: TxnStatus::Uncommitted { lock: pushed, min_commit_ts_pushed: true },
            modifies: seq![Modify::PutLock { lock: pushed }],
            released: Seq::empty(),
        }
    } else {
        Outcome {
            status: TxnStatus::Uncommitted { lock, min_commit_ts_pushed: caller.is_max() },
            modifies: Seq::empty(),
            released: Seq::empty(),
        }
    }
}

/// The outcome of a status check of the transaction that started at
/// `lock_ts`, on a key whose records are `state`. The lock decides if it is
/// that transaction's; otherwise the write records do.
pub open spec fn check_outcome(
    state: KeyStateView,
    key: Seq<u8>,
    lock_ts: TimeStamp,
    caller_start_ts: TimeStamp,
    current_ts: TimeStamp,
    rollback_if_not_exist: bool,
) -> Result<Outcome, Error> {
    match state.lock_of(lock_ts) {
        Some(lock) => Ok(live_lock_outcome(key, lock, caller_start_ts, current_ts)),
        None => match missing_lock_outcome(
            state.writes,
            lock_ts,
            MissingLockAction::rollback(rollback_if_not_exist),
        ) {
            Ok((status, modifies)) => Ok(Outcome { status, modifies, released: Seq::empty() }),
            Err(e) => Err(e),
        },
    }
}

/// A request to check the status of a transaction on its primary key.
pub struct CheckTxnStatus {
    /// The primary key of the transaction.
    pub primary_key: Vec<u8>,
    /// The start timestamp of the transaction.
    pub lock_ts: TimeStamp,
    /// The start timestamp of the transaction that asks.
    pub caller_start_ts: TimeStamp,
    /// The approximate time at which it asks.
    pub current_ts: TimeStamp,
    /// Whether a transaction of which nothing is found counts as rolled back.
    pub rollback_if_not_exist: bool,
}

/// What a status check hands back.
pub struct WriteResult {
    pub txn_status: TxnStatus,
    /// The mutations of the primary key, to be applied as one.
    pub to_be_write: WriteBatch,
    /// The locks whose waiters are to be woken.
    pub released_locks: ReleasedLocks,
    /// The number of keys that the check looked at.
    pub rows: usize,
}

impl View for WriteResult {
    type V = Outcome;

    open spec fn view(&self) -> Outcome {
        Outcome {
            status: self.txn_status,
            modifies: self.to_be_write@,
            released: self.released_locks@,
        }
    }
}

impl WriteResult {
    /// The waiters of the released locks are to be woken: the check has
    /// removed an expired lock.
    pub fn needs_wake_up(&self) -> (r: bool)
        ensures
            r == (self.txn_status == TxnStatus::TtlExpire),
    {
        match self.txn_status {
            TxnStatus::TtlExpire => true,
            _ => false,
        }
    }
}

impl CheckTxnStatus {
    /// The outcome that this request has on a key whose records are `state`.
    pub open spec fn outcome(&self, state: KeyStateView) -> Result<Outcome, Error> {
        check_outcome(
            state,
            self.primary_key@,
            self.lock_ts,
            self.caller_start_ts,
            self.current_ts,
            self.rollback_if_not_exist,
        )
    }

    pub fn new(
        primary_key: Vec<u8>,
        lock_ts: TimeStamp,
        caller_start_ts: TimeStamp,
        current_ts: TimeStamp,
        rollback_if_not_exist: bool,
    ) -> (r: CheckTxnStatus)
        ensures
            r.primary_key@ == primary_key@,
            r.lock_ts == lock_ts,
            r.caller_start_ts == caller_start_ts,
            r.current_ts == current_ts,
            r.rollback_if_not_exist == rollback_if_not_exist,
    {
        CheckTxnStatus { primary_key, lock_ts, caller_start_ts, current_ts, rollback_if_not_exist }
    }

    /// Checks the status of the transaction on the records that `snapshot`
    /// shows of its primary key.
    ///
    /// The timestamps of the request are first reported to `authority`. An
    /// expired primary lock is rolled back; a live one may have its promise
    /// pushed forward; without the lock, the write records decide. Nothing
    /// is written to `snapshot`: the mutations come back in the result.
    pub fn process_write(self, snapshot: &KeyState, authority: &mut TimestampAuthority) -> (r:
        Result<WriteResult, Error>)
        ensures
            final(authority).max_ts() == TimestampAuthority::raised(
                old(authority).max_ts(),
                observed_max_ts(self.lock_ts, self.caller_start_ts, self.current_ts),
            ),
            match r {
                Ok(w) => {
                    &&& self.outcome(snapshot@) == Ok::<Outcome, Error>(w@)
                    &&& w.to_be_write.key@ == self.primary_key@
                    &&& w.released_locks.start_ts == self.lock_ts
                    &&& w.released_locks.commit_ts == TimeStamp(0)
                    &&& w.rows == 1
                },
                Err(e) => self.outcome(snapshot@) == Err::<Outcome, Error>(e),
            },
            r is Err ==> r == Err::<WriteResult, Error>(Error::TxnNotFound { start_ts: self.lock_ts }),
            r is Err <==> {
                &&& snapshot@.lock_of(self.lock_ts) is None
                &&& commit_record(snapshot@.writes, self.lock_ts) is None
                &&& !self.rollback_if_not_exist
            },
    {
        let new_max_ts = observed_max_ts(self.lock_ts, self.caller_start_ts, self.current_ts);
        authority.update_max_ts(new_max_ts);

        let mut released_locks = ReleasedLocks::new(self.lock_ts, TimeStamp::zero());
        let mut batch = WriteBatch::new(copy_key(&self.primary_key));

        let txn_status = match snapshot.load_lock() {
            Some(lock) if lock.ts.0 == self.lock_ts.0 => {
                let caller_start_ts = effective_ts(lock, self.caller_start_ts);
                let current_ts = effective_ts(lock, self.current_ts);
                let is_pessimistic_txn = lock.is_pessimistic_txn();
                if lock.is_expired(current_ts) {
                    batch.put_write(lock.ts, Write::rollback(lock.ts, is_pessimistic_txn));
                    batch.unlock_key();
                    released_locks.push(Some(ReleasedLock::new(self.primary_key, is_pessimistic_txn)));
                    TxnStatus::TtlExpire
                } else if should_push(lock, caller_start_ts) {
                    match push_min_commit_ts(lock, caller_start_ts, current_ts) {
                        Ok(pushed) => {
                            batch.put_lock(pushed);
                            TxnStatus::uncommitted(pushed, true)
                        },
                        Err(e) => {
                            return Err(e);
                        },
                    }
                } else {
                    TxnStatus::uncommitted(lock, caller_start_ts.is_max())
                }
            },
            _ => {
                let action = MissingLockAction::rollback(self.rollback_if_not_exist);
                match check_txn_status_missing_lock(snapshot, &mut batch, self.lock_ts, action) {
                    Ok(status) => status,
                    Err(e) => {
                        return Err(e);
                    },
                }
            },
        };
        let w = WriteResult { txn_status, to_be_write: batch, released_locks, rows: 1 };
        assert(w@.modifies =~= self.outcome(snapshot@)->Ok_0.modifies);
        assert(w@.released =~= self.outcome(snapshot@)->Ok_0.released);
        Ok(w)
    }
}

} // verus!
