//! The persisted records that a status check reads and writes, and the
//! outcome it reports.

use vstd::prelude::*;
use crate::timestamp::TimeStamp;

verus! {

/// The record "this key is locked by the transaction that started at `ts`".
#[derive(Clone, Copy, Debug, PartialEq, Eq, Structural)]
pub struct Lock {
    /// Start timestamp of the owning transaction.
    pub ts: TimeStamp,
    /// Milliseconds the lock lives past the physical part of `ts`.
    pub ttl: u64,
    /// Zero for an optimistic lock; otherwise the lock is pessimistic.
    pub for_update_ts: TimeStamp,
    /// Lower bound promised for the commit timestamp; zero is "no promise".
    pub min_commit_ts: TimeStamp,
    /// The owning transaction commits without a coordinator round trip.
    pub use_async_commit: bool,
}

impl Lock {
    pub open spec fn spec_is_pessimistic_txn(self) -> bool {
        self.for_update_ts.0 != 0
    }

    /// A lock is expired at `current_ts` when the physical part of its start
    /// timestamp plus its time to live lies before the physical part of
    /// `current_ts`. Logical counters play no part.
    pub open spec fn spec_is_expired(self, current_ts: TimeStamp) -> bool {
        self.ts.spec_physical() + self.ttl < current_ts.spec_physical()
    }

    /// The same lock with another promise.
    pub open spec fn with_min_commit_ts(self, min_commit_ts: TimeStamp) -> Lock {
        Lock { min_commit_ts, ..self }
    }

    pub fn new(
        ts: TimeStamp,
        ttl: u64,
        for_update_ts: TimeStamp,
        min_commit_ts: TimeStamp,
    ) -> (r: Lock)
        ensures
            r == (Lock { ts, ttl, for_update_ts, min_commit_ts, use_async_commit: false }),
    {
        Lock { ts, ttl, for_update_ts, min_commit_ts, use_async_commit: false }
    }

    /// The same lock, marked as one of an async-commit transaction.
    pub fn into_async_commit(self) -> (r: Lock)
        ensures
            r == (Lock { use_async_commit: true, ..self }),
    {
        Lock { use_async_commit: true, ..self }
    }

    #[verifier::when_used_as_spec(spec_is_pessimistic_txn)]
    pub fn is_pessimistic_txn(self) -> (r: bool)
        ensures
            r == self.spec_is_pessimistic_txn(),
    {
        !self.for_update_ts.is_zero()
    }

    #[verifier::when_used_as_spec(spec_is_expired)]
    pub fn is_expired(self, current_ts: TimeStamp) -> (r: bool)
        ensures
            r == self.spec_is_expired(current_ts),
    {
        let now: u64 = current_ts.physical();
        let start: u64 = self.ts.physical();
        // `start + ttl < now` without leaving the range of u64.
        self.ttl < now && start < now - self.ttl
    }
}

/// What a write record says happened to the key.
#[derive(Clone, Copy, Debug, PartialEq, Eq, Structural)]
pub enum WriteType {
    Put,
    Delete,
    Lock,
    Rollback,
}

/// The terminal outcome of one transaction on one key.
#[derive(Clone, Copy, Debug, PartialEq, Eq, Structural)]
pub struct Write {
    pub write_type: WriteType,
    /// Start timestamp of the transaction that the record belongs to.
    pub start_ts: TimeStamp,
    /// For a rollback: the marker must never be overwritten or dropped.
    pub protected: bool,
}

impl Write {
    /// The rollback marker of the transaction that started at `start_ts`.
    pub open spec fn spec_rollback(start_ts: TimeStamp, protected: bool) -> Write {
        Write { write_type: WriteType::Rollback, start_ts, protected }
    }

    pub fn new(write_type: WriteType, start_ts: TimeStamp) -> (r: Write)
        ensures
            r == (Write { write_type, start_ts, protected: false }),
    {
        Write { write_type, start_ts, protected: false }
    }

    #[verifier::when_used_as_spec(spec_rollback)]
    pub fn rollback(start_ts: TimeStamp, protected: bool) -> (r: Write)
        ensures
            r == Self::spec_rollback(start_ts, protected),
    {
        Write { write_type: WriteType::Rollback, start_ts, protected }
    }

    pub open spec fn spec_is_rollback(self) -> bool {
        self.write_type == WriteType::Rollback
    }

    #[verifier::when_used_as_spec(spec_is_rollback)]
    pub fn is_rollback(self) -> (r: bool)
        ensures
            r == self.spec_is_rollback(),
    {
        match self.write_type {
            WriteType::Rollback => true,
            _ => false,
        }
    }
}

/// A write record together with the version it is stored at.
#[derive(Clone, Copy, Debug, PartialEq, Eq, Structural)]
pub struct WriteEntry {
    pub commit_ts: TimeStamp,
    pub write: Write,
}

/// The disposition of a transaction, as a status check finds it.
#[derive(Clone, Copy, Debug, PartialEq, Eq, Structural)]
pub enum TxnStatus {
    /// The transaction was rolled back before the check.
    RolledBack,
    /// The check found the lock expired and removed it.
    TtlExpire,
    /// The transaction committed at `commit_ts`.
    Committed { commit_ts: TimeStamp },
    /// The lock is alive; `lock` is the lock as the check leaves it.
    Uncommitted { lock: Lock, min_commit_ts_pushed: bool },
    /// Neither a lock nor a terminal write record exists.
    LockNotExist,
}

impl TxnStatus {
    pub fn uncommitted(lock: Lock, min_commit_ts_pushed: bool) -> (r: TxnStatus)
        ensures
            r == (TxnStatus::Uncommitted { lock, min_commit_ts_pushed }),
    {
        TxnStatus::Uncommitted { lock, min_commit_ts_pushed }
    }

    pub fn committed(commit_ts: TimeStamp) -> (r: TxnStatus)
        ensures
            r == (TxnStatus::Committed { commit_ts }),
    {
        TxnStatus::Committed { commit_ts }
    }
}

/// Why a status check failed.
#[derive(Clone, Copy, Debug, PartialEq, Eq, Structural)]
pub enum Error {
    /// Neither a lock nor a terminal write record of the transaction exists,
    /// and the caller did not allow the absence to count as a rollback.
    TxnNotFound { start_ts: TimeStamp },
    /// The lock of an async-commit transaction was about to have its promise
    /// pushed forward.
    InvariantViolation,
}

/// One mutation of the records of a key.
#[derive(Clone, Copy, Debug, PartialEq, Eq, Structural)]
pub enum Modify {
    /// Store `lock` as the lock of the key.
    PutLock { lock: Lock },
    /// Remove the lock of the key.
    DeleteLock,
    /// Store `write` as the write record of the key at `commit_ts`.
    PutWrite { commit_ts: TimeStamp, write: Write },
}

} // verus!
