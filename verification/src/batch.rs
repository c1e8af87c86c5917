//! What a status check hands back besides the status: the mutations to apply
//! and the waiters to wake.

use vstd::prelude::*;
use crate::records::{Lock, Modify, Write};
use crate::timestamp::TimeStamp;

verus! {

/// Copies a key.
pub fn copy_key(key: &Vec<u8>) -> (r: Vec<u8>)
    ensures
        r@ == key@,
{
    let mut out: Vec<u8> = Vec::new();
    let mut i: usize = 0;
    while i < key.len()
        invariant
            i <= key.len(),
            out@ == key@.subrange(0, i as int),
        decreases key.len() - i,
    {
        out.push(key[i]);
        assert(out@ == key@.subrange(0, i + 1));
        i += 1;
    }
    assert(key@.subrange(0, key.len() as int) == key@);
    out
}

/// The mutations of one key that an operation has decided on, in the order
/// in which they were decided. They are applied together or not at all.
pub struct WriteBatch {
    pub key: Vec<u8>,
    pub modifies: Vec<Modify>,
}

impl View for WriteBatch {
    type V = Seq<Modify>;

    open spec fn view(&self) -> Seq<Modify> {
        self.modifies@
    }
}

impl WriteBatch {
    pub fn new(key: Vec<u8>) -> (r: WriteBatch)
        ensures
            r.key@ == key@,
            r@ == Seq::<Modify>::empty(),
    {
        WriteBatch { key, modifies: Vec::new() }
    }

    pub fn put_lock(&mut self, lock: Lock)
        ensures
            final(self).key@ == old(self).key@,
            final(self)@ == old(self)@.push(Modify::PutLock { lock }),
    {
        self.modifies.push(Modify::PutLock { lock });
    }

    pub fn unlock_key(&mut self)
        ensures
            final(self).key@ == old(self).key@,
            final(self)@ == old(self)@.push(Modify::DeleteLock),
    {
        self.modifies.push(Modify::DeleteLock);
    }

    pub fn put_write(&mut self, commit_ts: TimeStamp, write: Write)
        ensures
            final(self).key@ == old(self).key@,
            final(self)@ == old(self)@.push(Modify::PutWrite { commit_ts, write }),
    {
        self.modifies.push(Modify::PutWrite { commit_ts, write });
    }

    pub fn is_empty(&self) -> (r: bool)
        ensures
            r == (self@.len() == 0),
    {
        self.modifies.len() == 0
    }
}

/// A lock that was removed, named by its key.
pub struct ReleasedLock {
    pub key: Vec<u8>,
    /// The lock belonged to a pessimistic transaction.
    pub pessimistic: bool,
}

/// A released lock as a plain value.
pub ghost struct ReleasedLockView {
    pub key: Seq<u8>,
    pub pessimistic: bool,
}

impl View for ReleasedLock {
    type V = ReleasedLockView;

    open spec fn view(&self) -> ReleasedLockView {
        ReleasedLockView { key: self.key@, pessimistic: self.pessimistic }
    }
}

impl ReleasedLock {
    pub fn new(key: Vec<u8>, pessimistic: bool) -> (r: ReleasedLock)
        ensures
            r@ == (ReleasedLockView { key: key@, pessimistic }),
    {
        ReleasedLock { key, pessimistic }
    }
}

/// The locks of the transaction that started at `start_ts` which one
/// operation has removed. Whoever waits for one of them may go on.
pub struct ReleasedLocks {
    pub start_ts: TimeStamp,
    pub commit_ts: TimeStamp,
    pub locks: Vec<ReleasedLock>,
}

impl View for ReleasedLocks {
    type V = Seq<ReleasedLockView>;

    open spec fn view(&self) -> Seq<ReleasedLockView> {
        self.locks@.map_values(|l: ReleasedLock| l@)
    }
}

impl ReleasedLocks {
    pub fn new(start_ts: TimeStamp, commit_ts: TimeStamp) -> (r: ReleasedLocks)
        ensures
            r.start_ts == start_ts,
            r.commit_ts == commit_ts,
            r@ == Seq::<ReleasedLockView>::empty(),
    {
        let r = ReleasedLocks { start_ts, commit_ts, locks: Vec::new() };
        assert(r@ =~= Seq::<ReleasedLockView>::empty());
        r
    }

    /// What `push` leaves in an accumulator that held `before`.
    pub open spec fn pushed(before: Seq<ReleasedLockView>, lock: Option<ReleasedLock>) -> Seq<
        ReleasedLockView,
    > {
        match lock {
            Some(l) => before.push(l@),
            None => before,
        }
    }

    /// Adds a released lock, if there is one.
    pub fn push(&mut self, lock: Option<ReleasedLock>)
        ensures
            final(self).start_ts == old(self).start_ts,
            final(self).commit_ts == old(self).commit_ts,
            final(self)@ == Self::pushed(old(self)@, lock),
    {
        if let Some(l) = lock {
            self.locks.push(l);
            assert(self@ =~= old(self)@.push(l@));
        }
    }

    pub fn is_empty(&self) -> (r: bool)
        ensures
            r == (self@.len() == 0),
    {
        self.locks.len() == 0
    }

    /// Some released lock belonged to a pessimistic transaction.
    pub open spec fn spec_is_pessimistic_txn(&self) -> bool {
        exists|i: int| 0 <= i < self@.len() && #[trigger] self@[i].pessimistic
    }

    pub fn is_pessimistic_txn(&self) -> (r: bool)
        ensures
            r == self.spec_is_pessimistic_txn(),
    {
        let mut i: usize = 0;
        while i < self.locks.len()
            invariant
                i <= self.locks.len(),
                forall|j: int| 0 <= j < i ==> !(#[trigger] self@[j]).pessimistic,
            decreases self.locks.len() - i,
        {
            if self.locks[i].pessimistic {
                assert(self@[i as int].pessimistic);
                return true;
            }
            i += 1;
        }
        false
    }
}

} // verus!
