//! The records of one key as a snapshot shows them: its lock, if any, and
//! its write records, newest first.

use vstd::prelude::*;
use crate::batch::WriteBatch;
use crate::records::{Lock, Modify, Write, WriteEntry};
use crate::timestamp::TimeStamp;

verus! {

/// `e` is the terminal record of the transaction that started at `start_ts`,
/// stored at that version or a later one.
pub open spec fn is_commit_record(e: WriteEntry, start_ts: TimeStamp) -> bool {
    e.write.start_ts == start_ts && e.commit_ts.0 >= start_ts.0
}

/// The first of `writes` that is the terminal record of the transaction
/// that started at `start_ts`.
pub open spec fn commit_record(writes: Seq<WriteEntry>, start_ts: TimeStamp) -> Option<WriteEntry>
    decreases writes.len(),
{
    if writes.len() == 0 {
        None
    } else if is_commit_record(writes[0], start_ts) {
        Some(writes[0])
    } else {
        commit_record(writes.drop_first(), start_ts)
    }
}

/// `commit_record` returns the matching entry before which no entry
/// matches, and nothing exactly when no entry matches.
pub proof fn lemma_commit_record(writes: Seq<WriteEntry>, start_ts: TimeStamp)
    ensures
        match commit_record(writes, start_ts) {
            Some(e) => exists|i: int|
                0 <= i < writes.len() && writes[i] == e && is_commit_record(e, start_ts)
                    && forall|j: int| 0 <= j < i ==> !is_commit_record(#[trigger] writes[j], start_ts),
            None => forall|i: int|
                0 <= i < writes.len() ==> !is_commit_record(#[trigger] writes[i], start_ts),
        },
    decreases writes.len(),
{
    if writes.len() == 0 {
    } else if is_commit_record(writes[0], start_ts) {
        assert(forall|j: int| 0 <= j < 0 ==> !is_commit_record(#[trigger] writes[j], start_ts));
    } else {
        let rest = writes.drop_first();
        lemma_commit_record(rest, start_ts);
        match commit_record(rest, start_ts) {
            Some(e) => {
                let i = choose|i: int|
                    0 <= i < rest.len() && rest[i] == e && is_commit_record(e, start_ts)
                        && forall|j: int| 0 <= j < i ==> !is_commit_record(#[trigger] rest[j], start_ts);
                assert(writes[i + 1] == e);
                assert forall|j: int| 0 <= j < i + 1 implies !is_commit_record(
                    #[trigger] writes[j],
                    start_ts,
                ) by {
                    if j > 0 {
                        assert(writes[j] == rest[j - 1]);
                    }
                }
            },
            None => {
                assert forall|i: int| 0 <= i < writes.len() implies !is_commit_record(
                    #[trigger] writes[i],
                    start_ts,
                ) by {
                    if i > 0 {
                        assert(writes[i] == rest[i - 1]);
                    }
                }
            },
        }
    }
}

/// A matching entry that no matching entry precedes is the one that
/// `commit_record` returns.
pub proof fn lemma_commit_record_at(writes: Seq<WriteEntry>, start_ts: TimeStamp, i: int)
    requires
        0 <= i < writes.len(),
        is_commit_record(writes[i], start_ts),
        forall|j: int| 0 <= j < i ==> !is_commit_record(#[trigger] writes[j], start_ts),
    ensures
        commit_record(writes, start_ts) == Some(writes[i]),
    decreases writes.len(),
{
    if i > 0 {
        lemma_commit_record_at(writes.drop_first(), start_ts, i - 1);
    }
}

/// The number of leading entries of `writes` whose version lies above
/// `commit_ts`: the place of a record at `commit_ts` among records kept
/// newest first.
pub open spec fn insert_pos(writes: Seq<WriteEntry>, commit_ts: TimeStamp) -> int
    decreases writes.len(),
{
    if writes.len() == 0 || writes[0].commit_ts.0 <= commit_ts.0 {
        0
    } else {
        1 + insert_pos(writes.drop_first(), commit_ts)
    }
}

/// `p` is the first index of `writes` whose version is not above
/// `commit_ts`, or the length where there is none.
pub open spec fn is_insert_pos(writes: Seq<WriteEntry>, commit_ts: TimeStamp, p: int) -> bool {
    &&& 0 <= p <= writes.len()
    &&& forall|j: int| 0 <= j < p ==> (#[trigger] writes[j]).commit_ts.0 > commit_ts.0
    &&& p < writes.len() ==> writes[p].commit_ts.0 <= commit_ts.0
}

pub proof fn lemma_insert_pos(writes: Seq<WriteEntry>, commit_ts: TimeStamp)
    ensures
        is_insert_pos(writes, commit_ts, insert_pos(writes, commit_ts)),
    decreases writes.len(),
{
    if writes.len() == 0 || writes[0].commit_ts.0 <= commit_ts.0 {
    } else {
        let rest = writes.drop_first();
        lemma_insert_pos(rest, commit_ts);
        let p = insert_pos(rest, commit_ts);
        assert forall|j: int| 0 <= j < p + 1 implies (#[trigger] writes[j]).commit_ts.0
            > commit_ts.0 by {
            if j > 0 {
                assert(writes[j] == rest[j - 1]);
            }
        }
        if p + 1 < writes.len() {
            assert(writes[p + 1] == rest[p]);
        }
    }
}

pub proof fn lemma_insert_pos_unique(writes: Seq<WriteEntry>, commit_ts: TimeStamp, p: int)
    requires
        is_insert_pos(writes, commit_ts, p),
    ensures
        insert_pos(writes, commit_ts) == p,
{
    lemma_insert_pos(writes, commit_ts);
}

/// `writes` after the record `e` has been stored: `e` takes the place of the
/// record at its version if there is one, and else stands before the first
/// older record.
pub open spec fn with_write(writes: Seq<WriteEntry>, e: WriteEntry) -> Seq<WriteEntry> {
    let p = insert_pos(writes, e.commit_ts);
    if p < writes.len() && writes[p].commit_ts == e.commit_ts {
        writes.update(p, e)
    } else {
        writes.insert(p, e)
    }
}

/// Each record is older than the one before it, so no two share a version.
pub open spec fn newest_first(writes: Seq<WriteEntry>) -> bool {
    forall|i: int, j: int|
        0 <= i < j < writes.len() ==> (#[trigger] writes[i]).commit_ts.0 > (
        #[trigger] writes[j]).commit_ts.0
}

/// Storing a record keeps the records ordered, newest first.
pub proof fn lemma_with_write_newest_first(writes: Seq<WriteEntry>, e: WriteEntry)
    requires
        newest_first(writes),
    ensures
        newest_first(with_write(writes, e)),
{
    lemma_insert_pos(writes, e.commit_ts);
}

/// After a record of the transaction that started at `start_ts` has been
/// stored at that very version, where the transaction had no terminal record
/// before, the stored record is the transaction's terminal record.
pub proof fn lemma_commit_record_after_write(writes: Seq<WriteEntry>, e: WriteEntry)
    requires
        commit_record(writes, e.write.start_ts) is None,
        e.commit_ts == e.write.start_ts,
    ensures
        commit_record(with_write(writes, e), e.write.start_ts) == Some(e),
{
    let ts = e.write.start_ts;
    lemma_commit_record(writes, ts);
    lemma_insert_pos(writes, ts);
    let p = insert_pos(writes, ts);
    lemma_commit_record_at(with_write(writes, e), ts, p);
}

/// Storing a record of one transaction at that transaction's start version
/// leaves the terminal record of every other transaction as it was.
pub proof fn lemma_commit_record_of_other(
    writes: Seq<WriteEntry>,
    e: WriteEntry,
    start_ts: TimeStamp,
)
    requires
        e.write.start_ts != start_ts,
        forall|i: int|
            0 <= i < writes.len() && (#[trigger] writes[i]).commit_ts == e.commit_ts
                ==> !is_commit_record(writes[i], start_ts),
    ensures
        commit_record(with_write(writes, e), start_ts) == commit_record(writes, start_ts),
{
    lemma_commit_record(writes, start_ts);
    lemma_insert_pos(writes, e.commit_ts);
    let p = insert_pos(writes, e.commit_ts);
    let out = with_write(writes, e);
    let replaced = p < writes.len() && writes[p].commit_ts == e.commit_ts;
    match commit_record(writes, start_ts) {
        Some(w) => {
            let i = choose|i: int|
                0 <= i < writes.len() && writes[i] == w && is_commit_record(w, start_ts)
                    && forall|j: int| 0 <= j < i ==> !is_commit_record(#[trigger] writes[j], start_ts);
            let k = if replaced || i < p { i } else { i + 1 };
            lemma_commit_record_at(out, start_ts, k);
        },
        None => {
            lemma_commit_record(out, start_ts);
        },
    }
}

/// The records of one key.
pub struct KeyState {
    pub lock: Option<Lock>,
    /// The write records, newest first.
    pub writes: Vec<WriteEntry>,
}

/// The records of one key as plain values.
pub ghost struct KeyStateView {
    pub lock: Option<Lock>,
    pub writes: Seq<WriteEntry>,
}

impl View for KeyState {
    type V = KeyStateView;

    open spec fn view(&self) -> KeyStateView {
        KeyStateView { lock: self.lock, writes: self.writes@ }
    }
}

impl KeyStateView {
    /// The records after one mutation.
    pub open spec fn apply_one(self, m: Modify) -> KeyStateView {
        match m {
            Modify::PutLock { lock } => KeyStateView { lock: Some(lock), ..self },
            Modify::DeleteLock => KeyStateView { lock: None, ..self },
            Modify::PutWrite { commit_ts, write } => KeyStateView {
                writes: with_write(self.writes, WriteEntry { commit_ts, write }),
                ..self
            },
        }
    }

    /// The records after the mutations `ms`, applied in their order.
    pub open spec fn apply(self, ms: Seq<Modify>) -> KeyStateView
        decreases ms.len(),
    {
        if ms.len() == 0 {
            self
        } else {
            self.apply_one(ms[0]).apply(ms.drop_first())
        }
    }

    /// The lock, if it belongs to the transaction that started at `start_ts`.
    pub open spec fn lock_of(self, start_ts: TimeStamp) -> Option<Lock> {
        match self.lock {
            Some(l) if l.ts == start_ts => Some(l),
            _ => None,
        }
    }

    /// The key holds a lock only of a transaction that has no terminal
    /// record on it, and its records are ordered.
    pub open spec fn wf(self) -> bool {
        &&& newest_first(self.writes)
        &&& match self.lock {
            Some(l) => commit_record(self.writes, l.ts) is None,
            None => true,
        }
    }
}

impl KeyState {
    /// A key without lock or write record.
    pub fn new() -> (r: KeyState)
        ensures
            r@ == (KeyStateView { lock: None, writes: Seq::empty() }),
    {
        KeyState { lock: None, writes: Vec::new() }
    }

    pub fn load_lock(&self) -> (r: Option<Lock>)
        ensures
            r == self@.lock,
    {
        self.lock
    }

    /// Looks for the terminal record of the transaction that started at
    /// `start_ts`, from the newest record down.
    pub fn get_txn_commit_record(&self, start_ts: TimeStamp) -> (r: Option<WriteEntry>)
        ensures
            r == commit_record(self@.writes, start_ts),
    {
        let mut i: usize = 0;
        assert(self.writes@.subrange(0, self.writes@.len() as int) == self.writes@);
        while i < self.writes.len()
            invariant
                i <= self.writes.len(),
                commit_record(self.writes@, start_ts) == commit_record(
                    self.writes@.subrange(i as int, self.writes@.len() as int),
                    start_ts,
                ),
            decreases self.writes.len() - i,
        {
            let e = self.writes[i];
            let ghost rest = self.writes@.subrange(i as int, self.writes@.len() as int);
            assert(rest[0] == e);
            assert(rest.drop_first() == self.writes@.subrange(i + 1, self.writes@.len() as int));
            if e.write.start_ts.0 == start_ts.0 && e.commit_ts.0 >= start_ts.0 {
                return Some(e);
            }
            i += 1;
        }
        None
    }

    pub fn put_lock(&mut self, lock: Lock)
        ensures
            final(self)@ == old(self)@.apply_one(Modify::PutLock { lock }),
    {
        self.lock = Some(lock);
    }

    pub fn unlock_key(&mut self)
        ensures
            final(self)@ == old(self)@.apply_one(Modify::DeleteLock),
    {
        self.lock = None;
    }

    /// Stores `write` at `commit_ts`, in place of the record at that version
    /// if there is one.
    pub fn put_write(&mut self, commit_ts: TimeStamp, write: Write)
        ensures
            final(self)@ == old(self)@.apply_one(Modify::PutWrite { commit_ts, write }),
            newest_first(old(self)@.writes) ==> newest_first(final(self)@.writes),
    {
        let e = WriteEntry { commit_ts, write };
        let mut i: usize = 0;
        while i < self.writes.len() && self.writes[i].commit_ts.0 > commit_ts.0
            invariant
                i <= self.writes.len(),
                self.writes@ == old(self).writes@,
                self.lock == old(self).lock,
                forall|j: int| 0 <= j < i ==> (#[trigger] self.writes@[j]).commit_ts.0 > commit_ts.0,
            decreases self.writes.len() - i,
        {
            i += 1;
        }
        proof {
            lemma_insert_pos_unique(self.writes@, commit_ts, i as int);
            if newest_first(self.writes@) {
                lemma_with_write_newest_first(self.writes@, e);
            }
        }
        if i < self.writes.len() && self.writes[i].commit_ts.0 == commit_ts.0 {
            self.writes.set(i, e);
        } else {
            self.writes.insert(i, e);
        }
        assert(self@.writes == with_write(old(self)@.writes, e));
    }

    /// Applies the mutations of `batch` in their order.
    pub fn apply(&mut self, batch: &WriteBatch)
        ensures
            final(self)@ == old(self)@.apply(batch@),
    {
        let mut i: usize = 0;
        assert(batch@.subrange(0, batch@.len() as int) == batch@);
        while i < batch.modifies.len()
            invariant
                i <= batch.modifies.len(),
                old(self)@.apply(batch@) == self@.apply(
                    batch@.subrange(i as int, batch@.len() as int),
                ),
            decreases batch.modifies.len() - i,
        {
            let ghost rest = batch@.subrange(i as int, batch@.len() as int);
            assert(rest[0] == batch@[i as int]);
            assert(rest.drop_first() == batch@.subrange(i + 1, batch@.len() as int));
            match batch.modifies[i] {
                Modify::PutLock { lock } => self.put_lock(lock),
                Modify::DeleteLock => self.unlock_key(),
                Modify::PutWrite { commit_ts, write } => self.put_write(commit_ts, write),
            }
            i += 1;
        }
    }
}

} // verus!
