//! The transfer store: one record per coin, one commencement time per batch.

use vstd::prelude::*;

use crate::record::{bytes_equal, opt_str_view, TransferRecord, TransferRecordView};

verus! {

/// The commencement time recorded for a batch.
pub struct BatchEntry {
    pub batch_id: String,
    pub batch_time: i64,
}

/// Why an operation on the store did not apply.
#[derive(Clone, Copy, Debug, PartialEq, Eq, Structural)]
pub enum TransferError {
    /// No record matches the coin and key.
    NotFound,
    /// The record changed since the caller last read it.
    ConflictingWrite,
}

/// Pending transfers keyed by coin, and the batch commencement times.
pub struct TransferStore {
    records: Vec<TransferRecord>,
    batches: Vec<BatchEntry>,
}

/// The model of a [`TransferStore`].
pub ghost struct StoreModel {
    pub records: Seq<TransferRecordView>,
    pub batches: Seq<(Seq<char>, i64)>,
}

impl StoreModel {
    /// No two records are for the same coin.
    pub open spec fn coins_unique(self) -> bool {
        forall|i: int, j: int|
            0 <= i < self.records.len() && 0 <= j < self.records.len() && i != j
                ==> #[trigger] self.records[i].statechain_id != #[trigger] self.records[j].statechain_id
    }

    /// No batch has two entries.
    pub open spec fn batch_ids_unique(self) -> bool {
        forall|i: int, j: int|
            0 <= i < self.batches.len() && 0 <= j < self.batches.len() && i != j
                ==> #[trigger] self.batches[i].0 != #[trigger] self.batches[j].0
    }

    /// Some record is for coin `c`.
    pub open spec fn has_record(self, c: Seq<char>) -> bool {
        exists|i: int| 0 <= i < self.records.len() && #[trigger] self.records[i].statechain_id == c
    }

    /// The record held for coin `c`, if any.
    pub open spec fn record_for(self, c: Seq<char>) -> Option<TransferRecordView> {
        if self.has_record(c) {
            Some(
                self.records[choose|i: int|
                    0 <= i < self.records.len() && #[trigger] self.records[i].statechain_id == c],
            )
        } else {
            None
        }
    }

    /// Batch `b` has an entry.
    pub open spec fn has_batch(self, b: Seq<char>) -> bool {
        exists|i: int| 0 <= i < self.batches.len() && #[trigger] self.batches[i].0 == b
    }

    /// The commencement time of batch `b`, once one has been fixed.
    pub open spec fn batch_time_for(self, b: Seq<char>) -> Option<i64> {
        if self.has_batch(b) {
            Some(
                self.batches[choose|i: int|
                    0 <= i < self.batches.len() && #[trigger] self.batches[i].0 == b].1,
            )
        } else {
            None
        }
    }

    /// Every record of a batch carries the batch's commencement time.
    pub open spec fn batch_times_coherent(self) -> bool {
        forall|i: int|
            0 <= i < self.records.len() ==> {
                let r = #[trigger] self.records[i];
                &&& r.lock_coherent()
                &&& (r.batch_id matches Some(b) ==> r.batch_time == self.batch_time_for(b))
            }
    }

    /// The invariant that every operation keeps.
    pub open spec fn wf(self) -> bool {
        &&& self.coins_unique()
        &&& self.batch_ids_unique()
        &&& self.batch_times_coherent()
    }

    /// Some locked record belongs to batch `b`.
    pub open spec fn batch_locked(self, b: Seq<char>) -> bool {
        exists|i: int|
            0 <= i < self.records.len() && #[trigger] self.records[i].batch_id == Some(b)
                && self.records[i].locked
    }

    /// A transfer of coin `c` to `key` is pending, in batch `batch` when one is given.
    pub open spec fn transfer_exists(
        self,
        c: Seq<char>,
        key: Seq<u8>,
        batch: Option<Seq<char>>,
    ) -> bool {
        match self.record_for(c) {
            Some(r) => r.new_user_auth_key == key && (batch matches Some(b) ==> r.batch_id
                == Some(b)),
            None => false,
        }
    }

    /// The batch and commencement time of coin `c`, when it belongs to a batch.
    pub open spec fn batch_of(self, c: Seq<char>) -> Option<(Seq<char>, i64)> {
        match self.record_for(c) {
            Some(r) => match (r.batch_id, r.batch_time) {
                (Some(b), Some(t)) => Some((b, t)),
                _ => None,
            },
            None => None,
        }
    }

    /// The records of coins other than `c` are as in `before`.
    pub open spec fn others_kept(self, before: StoreModel, c: Seq<char>) -> bool {
        forall|c2: Seq<char>| c2 != c ==> #[trigger] self.record_for(c2) == before.record_for(c2)
    }
}

/// The stamp of a change made at `now` to a record last stamped `prev`: the
/// time now, or one past `prev` where the clock has not moved past it.
pub open spec fn next_stamp(prev: Option<i64>, now: i64) -> i64 {
    match prev {
        None => now,
        Some(p) => if now > p {
            now
        } else if p < i64::MAX {
            (p + 1) as i64
        } else {
            p
        },
    }
}

/// The stamp of a change made at `now` to a record last stamped `prev`.
pub fn compute_next_stamp(prev: Option<i64>, now: i64) -> (r: i64)
    ensures
        r == next_stamp(prev, now),
{
    match prev {
        None => now,
        Some(p) => if now > p {
            now
        } else if p < i64::MAX {
            p + 1
        } else {
            p
        },
    }
}

/// The record with coin `c` at index `i` is the one `record_for` gives.
pub proof fn lemma_record_at(v: StoreModel, i: int)
    requires
        v.coins_unique(),
        0 <= i < v.records.len(),
    ensures
        v.record_for(v.records[i].statechain_id) == Some(v.records[i]),
{
    let c = v.records[i].statechain_id;
    assert(v.has_record(c));
    let j = choose|j: int| 0 <= j < v.records.len() && #[trigger] v.records[j].statechain_id == c;
    assert(j == i);
}

/// The entry of batch `b` at index `i` is the one `batch_time_for` gives.
pub proof fn lemma_batch_at(v: StoreModel, i: int)
    requires
        v.batch_ids_unique(),
        0 <= i < v.batches.len(),
    ensures
        v.batch_time_for(v.batches[i].0) == Some(v.batches[i].1),
{
    let b = v.batches[i].0;
    assert(v.has_batch(b));
    let j = choose|j: int| 0 <= j < v.batches.len() && #[trigger] v.batches[j].0 == b;
    assert(j == i);
}

/// The commencement time that batch `b` gets when a coin joins it at `now`.
pub open spec fn joined_time(v: StoreModel, b: Seq<char>, now: i64) -> i64 {
    match v.batch_time_for(b) {
        Some(t) => t,
        None => now,
    }
}

/// The batch table after a coin joins batch `b` at `now`: the first time
/// recorded for a batch stays.
pub open spec fn joined_batches(v: StoreModel, b: Seq<char>, now: i64) -> Seq<(Seq<char>, i64)> {
    if v.has_batch(b) {
        v.batches
    } else {
        v.batches.push((b, now))
    }
}

/// The stamp of the record held for coin `c`, if any.
pub open spec fn stamp_of(v: StoreModel, c: Seq<char>) -> Option<i64> {
    match v.record_for(c) {
        Some(r) => Some(r.updated_at),
        None => None,
    }
}

/// The record that admitting a transfer of coin `c` to `key` at `now` installs.
pub open spec fn admitted(
    v: StoreModel,
    c: Seq<char>,
    key: Seq<u8>,
    x1: Seq<u8>,
    batch: Option<Seq<char>>,
    now: i64,
) -> TransferRecordView {
    TransferRecordView {
        statechain_id: c,
        new_user_auth_key: key,
        x1: x1,
        encrypted_transfer_msg: None,
        batch_id: batch,
        batch_time: match batch {
            Some(b) => Some(joined_time(v, b, now)),
            None => None,
        },
        locked: batch is Some,
        updated_at: next_stamp(stamp_of(v, c), now),
    }
}

/// The record `r` with the message `msg` attached at `now`.
pub open spec fn with_message(r: TransferRecordView, msg: Seq<u8>, now: i64) -> TransferRecordView {
    TransferRecordView {
        encrypted_transfer_msg: Some(msg),
        updated_at: next_stamp(Some(r.updated_at), now),
        ..r
    }
}

/// What attaching `msg` for `key` to the record of coin `c` does, with the
/// stamp check against `expected` where one is given, at some time `now`.
pub open spec fn attach_outcome(
    before: StoreModel,
    after: StoreModel,
    key: Seq<u8>,
    msg: Seq<u8>,
    c: Seq<char>,
    expected: Option<i64>,
    r: Result<(), TransferError>,
    now: i64,
) -> bool {
    match before.record_for(c) {
        Some(rec) => if rec.new_user_auth_key != key {
            r == Err::<(), TransferError>(TransferError::NotFound) && after == before
        } else if expected matches Some(e) && e != rec.updated_at {
            r == Err::<(), TransferError>(TransferError::ConflictingWrite) && after == before
        } else {
            &&& r is Ok
            &&& after.record_for(c) == Some(with_message(rec, msg, now))
            &&& after.others_kept(before, c)
            &&& after.batches == before.batches
        },
        None => r == Err::<(), TransferError>(TransferError::NotFound) && after == before,
    }
}

/// A coin joining batch `b` at `now` took `before` to `after` and gave time `t`.
pub open spec fn join_effect(before: StoreModel, after: StoreModel, b: Seq<char>, now: i64, t: i64) -> bool {
    &&& t == joined_time(before, b, now)
    &&& after.batches == joined_batches(before, b, now)
    &&& after.records == before.records
}

/// Admitting a transfer of coin `c` to `key` at `now` took `before` to `after`.
pub open spec fn admit_effect(
    before: StoreModel,
    after: StoreModel,
    c: Seq<char>,
    key: Seq<u8>,
    x1: Seq<u8>,
    batch: Option<Seq<char>>,
    now: i64,
) -> bool {
    &&& after.record_for(c) == Some(admitted(before, c, key, x1, batch, now))
    &&& after.others_kept(before, c)
    &&& after.batches == match batch {
        Some(b) => joined_batches(before, b, now),
        None => before.batches,
    }
}

/// Replacing the record at `i` by one of the same coin keeps coins unique,
/// installs it for that coin and keeps the records of the other coins.
pub proof fn lemma_replace(v: StoreModel, i: int, r: TransferRecordView)
    requires
        v.coins_unique(),
        0 <= i < v.records.len(),
        v.records[i].statechain_id == r.statechain_id,
    ensures
        ({
            let w = StoreModel { records: v.records.update(i, r), batches: v.batches };
            &&& w.coins_unique()
            &&& w.record_for(r.statechain_id) == Some(r)
            &&& w.others_kept(v, r.statechain_id)
        }),
{
    let w = StoreModel { records: v.records.update(i, r), batches: v.batches };
    assert(w.coins_unique()) by {
        assert forall|a: int, b: int|
            0 <= a < w.records.len() && 0 <= b < w.records.len() && a != b implies
            #[trigger] w.records[a].statechain_id != #[trigger] w.records[b].statechain_id by {
            assert(v.records[a].statechain_id != v.records[b].statechain_id);
        }
    }
    lemma_record_at(w, i);
    assert forall|c2: Seq<char>| c2 != r.statechain_id implies #[trigger] w.record_for(c2)
        == v.record_for(c2) by {
        if v.has_record(c2) {
            let j = choose|j: int| 0 <= j < v.records.len() && #[trigger] v.records[j].statechain_id == c2;
            lemma_record_at(v, j);
            assert(w.records[j] == v.records[j]);
            lemma_record_at(w, j);
        } else {
            assert(!w.has_record(c2)) by {
                assert forall|j: int| 0 <= j < w.records.len() implies #[trigger] w.records[j].statechain_id != c2 by {
                    if j != i {
                        assert(w.records[j] == v.records[j]);
                        assert(v.records[j].statechain_id != c2);
                    }
                }
            }
        }
    }
}

/// Appending a record of a coin that has none keeps coins unique, installs it
/// for that coin and keeps the records of the other coins.
pub proof fn lemma_append(v: StoreModel, r: TransferRecordView)
    requires
        v.coins_unique(),
        !v.has_record(r.statechain_id),
    ensures
        ({
            let w = StoreModel { records: v.records.push(r), batches: v.batches };
            &&& w.coins_unique()
            &&& w.record_for(r.statechain_id) == Some(r)
            &&& w.others_kept(v, r.statechain_id)
        }),
{
    let w = StoreModel { records: v.records.push(r), batches: v.batches };
    let n = v.records.len() as int;
    assert(w.coins_unique()) by {
        assert forall|a: int, b: int|
            0 <= a < w.records.len() && 0 <= b < w.records.len() && a != b implies
            #[trigger] w.records[a].statechain_id != #[trigger] w.records[b].statechain_id by {
            if a < n && b < n {
                assert(v.records[a].statechain_id != v.records[b].statechain_id);
            } else if a < n {
                assert(v.records[a].statechain_id != r.statechain_id);
            } else {
                assert(v.records[b].statechain_id != r.statechain_id);
            }
        }
    }
    lemma_record_at(w, n);
    assert forall|c2: Seq<char>| c2 != r.statechain_id implies #[trigger] w.record_for(c2)
        == v.record_for(c2) by {
        if v.has_record(c2) {
            let j = choose|j: int| 0 <= j < v.records.len() && #[trigger] v.records[j].statechain_id == c2;
            lemma_record_at(v, j);
            assert(w.records[j] == v.records[j]);
            lemma_record_at(w, j);
        } else {
            assert(!w.has_record(c2)) by {
                assert forall|j: int| 0 <= j < w.records.len() implies #[trigger] w.records[j].statechain_id != c2 by {
                    if j < n {
                        assert(w.records[j] == v.records[j]);
                    }
                }
            }
        }
    }
}

/// Adding the first entry of batch `b` keeps batch ids unique, fixes its time
/// and keeps the times of the other batches.
pub proof fn lemma_batch_push(v: StoreModel, b: Seq<char>, t: i64)
    requires
        v.batch_ids_unique(),
        !v.has_batch(b),
    ensures
        ({
            let w = StoreModel { records: v.records, batches: v.batches.push((b, t)) };
            &&& w.batch_ids_unique()
            &&& w.batch_time_for(b) == Some(t)
            &&& forall|b2: Seq<char>| b2 != b ==> #[trigger] w.batch_time_for(b2) == v.batch_time_for(b2)
        }),
{
    let w = StoreModel { records: v.records, batches: v.batches.push((b, t)) };
    let n = v.batches.len() as int;
    assert(w.batch_ids_unique()) by {
        assert forall|x: int, y: int|
            0 <= x < w.batches.len() && 0 <= y < w.batches.len() && x != y implies
            #[trigger] w.batches[x].0 != #[trigger] w.batches[y].0 by {
            if x < n && y < n {
                assert(v.batches[x].0 != v.batches[y].0);
            } else if x < n {
                assert(v.batches[x].0 != b);
            } else {
                assert(v.batches[y].0 != b);
            }
        }
    }
    lemma_batch_at(w, n);
    assert forall|b2: Seq<char>| b2 != b implies #[trigger] w.batch_time_for(b2) == v.batch_time_for(b2) by {
        if v.has_batch(b2) {
            let j = choose|j: int| 0 <= j < v.batches.len() && #[trigger] v.batches[j].0 == b2;
            lemma_batch_at(v, j);
            assert(w.batches[j] == v.batches[j]);
            lemma_batch_at(w, j);
        } else {
            assert(!w.has_batch(b2)) by {
                assert forall|j: int| 0 <= j < w.batches.len() implies #[trigger] w.batches[j].0 != b2 by {
                    if j < n {
                        assert(w.batches[j] == v.batches[j]);
                    }
                }
            }
        }
    }
}

impl View for TransferStore {
    type V = StoreModel;

    closed spec fn view(&self) -> StoreModel {
        StoreModel {
            records: self.records@.map_values(|r: TransferRecord| r@),
            batches: self.batches@.map_values(|e: BatchEntry| (e.batch_id@, e.batch_time)),
        }
    }
}

impl TransferStore {
    pub open spec fn wf(&self) -> bool {
        self@.wf()
    }

    /// An empty store.
    pub fn new() -> (s: TransferStore)
        ensures
            s.wf(),
            s@.records.len() == 0,
            s@.batches.len() == 0,
    {
        let s = TransferStore { records: Vec::new(), batches: Vec::new() };
        assert(s@.records =~= Seq::<TransferRecordView>::empty());
        assert(s@.batches =~= Seq::<(Seq<char>, i64)>::empty());
        s
    }

    /// The number of records held.
    pub fn len(&self) -> (n: usize)
        ensures
            n == self@.records.len(),
    {
        self.records.len()
    }

    /// Index of the record of coin `c`, if any.
    fn find_record(&self, c: &str) -> (r: Option<usize>)
        requires
            self.wf(),
        ensures
            match r {
                Some(i) => i < self@.records.len() && self@.records[i as int].statechain_id == c@
                    && self@.record_for(c@) == Some(self@.records[i as int]),
                None => self@.record_for(c@) is None,
            },
    {
        let owned = c.to_owned();
        let mut i: usize = 0;
        while i < self.records.len()
            invariant
                self.wf(),
                owned@ == c@,
                0 <= i <= self.records@.len(),
                self@.records.len() == self.records@.len(),
                forall|k: int| 0 <= k < i ==> #[trigger] self@.records[k].statechain_id != c@,
            decreases self.records@.len() - i,
        {
            if self.records[i].statechain_id == owned {
                proof {
                    lemma_record_at(self@, i as int);
                }
                return Some(i);
            }
            i = i + 1;
        }
        None
    }

    /// Index of the entry of batch `b`, if any.
    fn find_batch(&self, b: &str) -> (r: Option<usize>)
        requires
            self.wf(),
        ensures
            match r {
                Some(i) => i < self@.batches.len() && self@.batches[i as int].0 == b@
                    && self@.batch_time_for(b@) == Some(self@.batches[i as int].1),
                None => self@.batch_time_for(b@) is None,
            },
    {
        let owned = b.to_owned();
        let mut i: usize = 0;
        while i < self.batches.len()
            invariant
                self.wf(),
                owned@ == b@,
                0 <= i <= self.batches@.len(),
                self@.batches.len() == self.batches@.len(),
                forall|k: int| 0 <= k < i ==> #[trigger] self@.batches[k].0 != b@,
            decreases self.batches@.len() - i,
        {
            if self.batches[i].batch_id == owned {
                proof {
                    lemma_batch_at(self@, i as int);
                }
                return Some(i);
            }
            i = i + 1;
        }
        None
    }

    /// A copy of the record held for coin `c`, if any.
    pub fn get_record(&self, c: &str) -> (r: Option<TransferRecord>)
        requires
            self.wf(),
        ensures
            match r {
                Some(rec) => self@.record_for(c@) == Some(rec@),
                None => self@.record_for(c@) is None,
            },
    {
        match self.find_record(c) {
            Some(i) => Some(self.records[i].duplicate()),
            None => None,
        }
    }

    /// Whether a transfer of coin `c` to `key` is pending, in batch `batch`
    /// when one is given.
    pub fn transfer_exists(&self, key: &[u8; 33], c: &str, batch: &Option<String>) -> (r: bool)
        requires
            self.wf(),
        ensures
            r == self@.transfer_exists(c@, key@, opt_str_view(*batch)),
    {
        match self.find_record(c) {
            Some(i) => {
                let rec = &self.records[i];
                if !bytes_equal(&rec.new_user_auth_key, key) {
                    return false;
                }
                match batch {
                    Some(b) => match &rec.batch_id {
                        Some(rb) => *rb == *b,
                        None => false,
                    },
                    None => true,
                }
            },
            None => false,
        }
    }

    /// The commencement time of batch `b`: the one already fixed, or `now`,
    /// which is then fixed for every later member.
    pub fn join_batch(&mut self, b: &str, now: i64) -> (t: i64)
        requires
            old(self).wf(),
        ensures
            final(self).wf(),
            final(self)@.batch_time_for(b@) == Some(t),
            join_effect(old(self)@, final(self)@, b@, now, t),
    {
        match self.find_batch(b) {
            Some(i) => self.batches[i].batch_time,
            None => {
                let ghost v = self@;
                proof {
                    lemma_batch_push(v, b@, now);
                }
                self.batches.push(BatchEntry { batch_id: b.to_owned(), batch_time: now });
                assert(self@.batches =~= v.batches.push((b@, now)));
                assert(self@.records =~= v.records);
                let ghost w = StoreModel { records: v.records, batches: v.batches.push((b@, now)) };
                assert(self@ == w);
                assert(w.batch_times_coherent()) by {
                    assert forall|i: int| 0 <= i < w.records.len() implies {
                        let r = #[trigger] w.records[i];
                        &&& r.lock_coherent()
                        &&& (r.batch_id matches Some(b2) ==> r.batch_time == w.batch_time_for(b2))
                    } by {
                        let r = v.records[i];
                        if let Some(b2) = r.batch_id {
                            if b2 == b@ {
                                assert(v.batch_time_for(b2) is None);
                                assert(r.batch_time is Some);
                            }
                        }
                    }
                }
                now
            },
        }
    }

    /// Supersedes any pending transfer of coin `c` by a transfer to `key`,
    /// joining batch `batch` when one is given, stamped at `now`.
    pub fn admit_transfer(
        &mut self,
        key: &[u8; 33],
        x1: &[u8; 32],
        c: &String,
        batch: &Option<String>,
        now: i64,
    )
        requires
            old(self).wf(),
        ensures
            final(self).wf(),
            admit_effect(old(self)@, final(self)@, c@, key@, x1@, opt_str_view(*batch), now),
    {
        let ghost v0 = self@;
        let batch_time = match batch {
            Some(b) => Some(self.join_batch(b.as_str(), now)),
            None => None,
        };
        let ghost v1 = self@;
        assert(v1.records == v0.records);
        assert(v1.record_for(c@) == v0.record_for(c@));
        let idx = self.find_record(c.as_str());
        let prev = match idx {
            Some(i) => Some(self.records[i].updated_at),
            None => None,
        };
        let rec = TransferRecord {
            statechain_id: c.clone(),
            new_user_auth_key: *key,
            x1: *x1,
            encrypted_transfer_msg: None,
            batch_id: crate::record::clone_opt_string(batch),
            batch_time: batch_time,
            locked: batch.is_some(),
            updated_at: compute_next_stamp(prev, now),
        };
        let ghost r = rec@;
        assert(r == admitted(v0, c@, key@, x1@, opt_str_view(*batch), now));
        match idx {
            Some(i) => {
                proof {
                    lemma_replace(v1, i as int, r);
                }
                self.records.set(i, rec);
                assert(self@.records =~= v1.records.update(i as int, r));
            },
            None => {
                proof {
                    lemma_append(v1, r);
                }
                self.records.push(rec);
                assert(self@.records =~= v1.records.push(r));
            },
        }
        let ghost w = self@;
        assert(w.batches == v1.batches);
        assert(w.batch_times_coherent()) by {
            assert forall|k: int| 0 <= k < w.records.len() implies {
                let q = #[trigger] w.records[k];
                &&& q.lock_coherent()
                &&& (q.batch_id matches Some(b2) ==> q.batch_time == w.batch_time_for(b2))
            } by {
                if w.records[k] != r {
                    assert(exists|j: int| 0 <= j < v1.records.len() && v1.records[j] == w.records[k]);
                }
            }
        }
    }


    /// Attaches the encrypted hand-off message to the record of coin `c`,
    /// provided it is a transfer to `key` and, where `expected` is given, the
    /// record still carries that stamp. Only the single record of the coin,
    /// which is its newest one, can be written.
    pub fn attach_message(
        &mut self,
        key: &[u8; 33],
        msg: &Vec<u8>,
        c: &str,
        expected: Option<i64>,
        now: i64,
    ) -> (r: Result<(), TransferError>)
        requires
            old(self).wf(),
        ensures
            final(self).wf(),
            attach_outcome(old(self)@, final(self)@, key@, msg@, c@, expected, r, now),
    {
        let idx = match self.find_record(c) {
            Some(i) => i,
            None => return Err(TransferError::NotFound),
        };
        if !bytes_equal(&self.records[idx].new_user_auth_key, key) {
            return Err(TransferError::NotFound);
        }
        match expected {
            Some(e) => {
                if e != self.records[idx].updated_at {
                    return Err(TransferError::ConflictingWrite);
                }
            },
            None => {},
        }
        let ghost v = self@;
        let old_rec = &self.records[idx];
        let rec = TransferRecord {
            statechain_id: old_rec.statechain_id.clone(),
            new_user_auth_key: old_rec.new_user_auth_key,
            x1: old_rec.x1,
            encrypted_transfer_msg: Some(msg.clone()),
            batch_id: crate::record::clone_opt_string(&old_rec.batch_id),
            batch_time: old_rec.batch_time,
            locked: old_rec.locked,
            updated_at: compute_next_stamp(Some(old_rec.updated_at), now),
        };
        let ghost r = rec@;
        assert(r == with_message(v.records[idx as int], msg@, now));
        proof {
            lemma_replace(v, idx as int, r);
        }
        self.records.set(idx, rec);
        assert(self@.records =~= v.records.update(idx as int, r));
        assert(self@.batches =~= v.batches);
        let ghost w = self@;
        assert(w.batch_times_coherent()) by {
            assert forall|k: int| 0 <= k < w.records.len() implies {
                let q = #[trigger] w.records[k];
                &&& q.lock_coherent()
                &&& (q.batch_id matches Some(b2) ==> q.batch_time == w.batch_time_for(b2))
            } by {
                if k != idx {
                    assert(w.records[k] == v.records[k]);
                } else {
                    assert(v.records[k].batch_id == r.batch_id);
                }
            }
        }
        Ok(())
    }

}

/// The commencement time of batch `batch_id`, read from its locked records.
pub fn get_batch_time_by_batch_id(store: &TransferStore, batch_id: &str) -> (r: Option<i64>)
    requires
        store.wf(),
    ensures
        r == (if store@.batch_locked(batch_id@) {
            store@.batch_time_for(batch_id@)
        } else {
            None
        }),
{
    let owned = batch_id.to_owned();
    let mut i: usize = 0;
    while i < store.records.len()
        invariant
            store.wf(),
            owned@ == batch_id@,
            0 <= i <= store.records@.len(),
            store@.records.len() == store.records@.len(),
            forall|k: int|
                0 <= k < i ==> !(#[trigger] store@.records[k].batch_id == Some(batch_id@)
                    && store@.records[k].locked),
        decreases store.records@.len() - i,
    {
        let rec = &store.records[i];
        if rec.locked {
            match &rec.batch_id {
                Some(rb) => {
                    if *rb == owned {
                        assert(store@.records[i as int].batch_id == Some(batch_id@));
                        return rec.batch_time;
                    }
                },
                None => {},
            }
        }
        i = i + 1;
    }
    None
}

/// Whether some locked record belongs to batch `batch_id`.
pub fn is_batch_locked(store: &TransferStore, batch_id: &str) -> (r: bool)
    requires
        store.wf(),
    ensures
        r == store@.batch_locked(batch_id@),
{
    let owned = batch_id.to_owned();
    let mut i: usize = 0;
    while i < store.records.len()
        invariant
            owned@ == batch_id@,
            0 <= i <= store.records@.len(),
            store@.records.len() == store.records@.len(),
            forall|k: int|
                0 <= k < i ==> !(#[trigger] store@.records[k].batch_id == Some(batch_id@)
                    && store@.records[k].locked),
        decreases store.records@.len() - i,
    {
        let rec = &store.records[i];
        if rec.locked {
            match &rec.batch_id {
                Some(rb) => {
                    if *rb == owned {
                        assert(store@.records[i as int].batch_id == Some(batch_id@));
                        return true;
                    }
                },
                None => {},
            }
        }
        i = i + 1;
    }
    false
}

/// The batch and commencement time of coin `statechain_id`, when it belongs to a batch.
pub fn get_batch_id_and_time_by_statechain_id(store: &TransferStore, statechain_id: &str) -> (r: Option<(String, i64)>)
    requires
        store.wf(),
    ensures
        match r {
            Some((b, t)) => store@.batch_of(statechain_id@) == Some((b@, t)),
            None => store@.batch_of(statechain_id@) is None,
        },
{
    match store.find_record(statechain_id) {
        Some(i) => {
            let rec = &store.records[i];
            match (&rec.batch_id, rec.batch_time) {
                (Some(b), Some(t)) => Some((b.clone(), t)),
                _ => None,
            }
        },
        None => None,
    }
}

} // verus!
