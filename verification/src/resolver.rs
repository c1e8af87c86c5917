//! What became of a transaction whose lock is not on the key.

use vstd::prelude::*;
use crate::batch::WriteBatch;
use crate::records::{Error, Modify, TxnStatus, Write, WriteEntry};
use crate::state::{commit_record, KeyState};
use crate::timestamp::TimeStamp;

verus! {

/// What to do where neither a lock nor a terminal record is found.
#[derive(Clone, Copy, Debug, PartialEq, Eq, Structural)]
pub enum MissingLockAction {
    /// Leave a protected rollback marker, so that no later decision about the
    /// same transaction can differ from this one.
    ProtectedRollback,
    /// Fail: the caller claims to know that the transaction exists.
    ReturnError,
}

impl MissingLockAction {
    pub open spec fn spec_rollback(rollback_if_not_exist: bool) -> MissingLockAction {
        if rollback_if_not_exist {
            MissingLockAction::ProtectedRollback
        } else {
            MissingLockAction::ReturnError
        }
    }

    #[verifier::when_used_as_spec(spec_rollback)]
    pub fn rollback(rollback_if_not_exist: bool) -> (r: MissingLockAction)
        ensures
            r == Self::spec_rollback(rollback_if_not_exist),
    {
        if rollback_if_not_exist {
            MissingLockAction::ProtectedRollback
        } else {
            MissingLockAction::ReturnError
        }
    }
}

/// The status that a terminal record stands for: rolled back for a rollback
/// marker, committed at the record's version for every other type.
pub open spec fn spec_status_of_record(e: WriteEntry) -> TxnStatus {
    if e.write.is_rollback() {
        TxnStatus::RolledBack
    } else {
        TxnStatus::Committed { commit_ts: e.commit_ts }
    }
}

#[verifier::when_used_as_spec(spec_status_of_record)]
pub fn status_of_record(e: WriteEntry) -> (r: TxnStatus)
    ensures
        r == spec_status_of_record(e),
{
    if e.write.is_rollback() {
        TxnStatus::RolledBack
    } else {
        TxnStatus::committed(e.commit_ts)
    }
}

/// The status of the transaction that started at `lock_ts` and holds no lock
/// on the key, and the mutations that the decision adds. With a terminal
/// record, the record decides and nothing is written. Without one, the
/// transaction counts as never having been there: a protected rollback
/// marker is written at `lock_ts`, or the check fails, as `action` says.
pub open spec fn missing_lock_outcome(
    writes: Seq<WriteEntry>,
    lock_ts: TimeStamp,
    action: MissingLockAction,
) -> Result<(TxnStatus, Seq<Modify>), Error> {
    match commit_record(writes, lock_ts) {
        Some(e) => Ok((status_of_record(e), Seq::empty())),
        None => match action {
            MissingLockAction::ProtectedRollback => Ok(
                (
                    TxnStatus::LockNotExist,
                    seq![Modify::PutWrite { commit_ts: lock_ts, write: Write::rollback(lock_ts, true) }],
                ),
            ),
            MissingLockAction::ReturnError => Err(Error::TxnNotFound { start_ts: lock_ts }),
        },
    }
}

/// Resolves the transaction that started at `lock_ts` from the write
/// records of the key, and adds to `batch` what the decision writes.
pub fn check_txn_status_missing_lock(
    snapshot: &KeyState,
    batch: &mut WriteBatch,
    lock_ts: TimeStamp,
    action: MissingLockAction,
) -> (r: Result<TxnStatus, Error>)
    ensures
        final(batch).key@ == old(batch).key@,
        match missing_lock_outcome(snapshot@.writes, lock_ts, action) {
            Ok((status, written)) => r == Ok::<TxnStatus, Error>(status) && final(batch)@ == old(
                batch,
            )@ + written,
            Err(e) => r == Err::<TxnStatus, Error>(e) && final(batch)@ == old(batch)@,
        },
{
    match snapshot.get_txn_commit_record(lock_ts) {
        Some(e) => {
            assert(batch@ + Seq::<Modify>::empty() == batch@);
            Ok(status_of_record(e))
        },
        None => match action {
            MissingLockAction::ReturnError => Err(Error::TxnNotFound { start_ts: lock_ts }),
            MissingLockAction::ProtectedRollback => {
                batch.put_write(lock_ts, Write::rollback(lock_ts, true));
                assert(batch@ == old(batch)@ + seq![
                    Modify::PutWrite { commit_ts: lock_ts, write: Write::rollback(lock_ts, true) },
                ]);
                Ok(TxnStatus::LockNotExist)
            },
        },
    }
}

} // verus!
