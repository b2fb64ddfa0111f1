//! Properties that hold across the operations of the store.

use vstd::prelude::*;

use crate::record::TransferRecordView;
use crate::store::{
    admit_effect, attach_outcome, join_effect, lemma_batch_push, next_stamp, StoreModel,
    TransferError,
};

verus! {

/// After an admission for coin `c`, exactly one record exists for `c`, and it
/// carries the arguments of that admission with no message yet.
pub proof fn lemma_admission_leaves_one_record(
    before: StoreModel,
    after: StoreModel,
    c: Seq<char>,
    key: Seq<u8>,
    x1: Seq<u8>,
    batch: Option<Seq<char>>,
    now: i64,
)
    requires
        before.wf(),
        after.wf(),
        admit_effect(before, after, c, key, x1, batch, now),
    ensures
        exists|i: int|
            0 <= i < after.records.len() && #[trigger] after.records[i].statechain_id == c
                && forall|j: int|
                0 <= j < after.records.len() && #[trigger] after.records[j].statechain_id == c
                    ==> j == i,
        after.record_for(c) matches Some(r) && r.new_user_auth_key == key && r.x1 == x1
            && r.batch_id == batch && r.encrypted_transfer_msg is None,
{
    assert(after.has_record(c));
    let i = choose|i: int| 0 <= i < after.records.len() && #[trigger] after.records[i].statechain_id == c;
    assert forall|j: int|
        0 <= j < after.records.len() && #[trigger] after.records[j].statechain_id == c implies j == i by {
        if j != i {
            assert(after.records[i].statechain_id != after.records[j].statechain_id);
        }
    }
}

/// Once a join has fixed the commencement time of batch `b`, the next join of
/// `b` returns that same time, whenever it happens.
pub proof fn lemma_join_stable(
    v0: StoreModel,
    v1: StoreModel,
    v2: StoreModel,
    b: Seq<char>,
    now1: i64,
    t1: i64,
    now2: i64,
    t2: i64,
)
    requires
        v0.wf(),
        join_effect(v0, v1, b, now1, t1),
        join_effect(v1, v2, b, now2, t2),
    ensures
        t2 == t1,
        v2.batch_time_for(b) == Some(t1),
{
    if !v0.has_batch(b) {
        lemma_batch_push(v0, b, now1);
        assert(v1.batch_time_for(b) == Some(t1));
    }
    assert(v1.has_batch(b));
    assert(v2 == v1);
}

/// Whatever happened before, a join of a batch whose commencement time is
/// fixed returns that time and leaves it fixed.
pub proof fn lemma_fixed_batch_time_returned(
    before: StoreModel,
    after: StoreModel,
    b: Seq<char>,
    t: i64,
    now: i64,
    t2: i64,
)
    requires
        before.wf(),
        before.batch_time_for(b) == Some(t),
        join_effect(before, after, b, now, t2),
    ensures
        t2 == t,
        after.batch_time_for(b) == Some(t),
{
    assert(before.has_batch(b));
    assert(after == before);
}

/// An admission leaves every fixed batch commencement time as it was, and a
/// coin that joins a batch whose time is fixed takes that time.
pub proof fn lemma_admission_keeps_batch_times(
    before: StoreModel,
    after: StoreModel,
    c: Seq<char>,
    key: Seq<u8>,
    x1: Seq<u8>,
    batch: Option<Seq<char>>,
    now: i64,
    b: Seq<char>,
    t: i64,
)
    requires
        before.wf(),
        admit_effect(before, after, c, key, x1, batch, now),
        before.batch_time_for(b) == Some(t),
    ensures
        after.batch_time_for(b) == Some(t),
        batch == Some(b) ==> (after.record_for(c) matches Some(r) && r.batch_time == Some(t)),
{
    if let Some(b2) = batch {
        if !before.has_batch(b2) {
            lemma_batch_push(before, b2, now);
            let w = StoreModel { records: before.records, batches: before.batches.push((b2, now)) };
            assert(after.batches == w.batches);
            assert(b2 != b);
            assert(after.has_batch(b) == w.has_batch(b));
            assert(after.batch_time_for(b) == w.batch_time_for(b));
        }
    }
}

/// Every record is locked exactly when it belongs to a batch.
pub proof fn lemma_lock_coherence(v: StoreModel)
    requires
        v.wf(),
    ensures
        forall|i: int|
            0 <= i < v.records.len() ==> #[trigger] v.records[i].locked == v.records[i].batch_id is Some,
{
}

/// All records of one batch carry the same commencement time.
pub proof fn lemma_batch_members_share_time(v: StoreModel, i: int, j: int)
    requires
        v.wf(),
        0 <= i < v.records.len(),
        0 <= j < v.records.len(),
        v.records[i].batch_id is Some,
        v.records[i].batch_id == v.records[j].batch_id,
    ensures
        v.records[i].batch_time == v.records[j].batch_time,
{
    let ri = v.records[i];
    let rj = v.records[j];
}

/// A writer holding the stamp of a record that a later admission has
/// superseded cannot attach a message: the write is refused and nothing
/// changes. The stamp must leave room for a later one.
pub proof fn lemma_stale_write_rejected(
    v0: StoreModel,
    v1: StoreModel,
    v2: StoreModel,
    c: Seq<char>,
    key: Seq<u8>,
    x1: Seq<u8>,
    batch: Option<Seq<char>>,
    now: i64,
    stale: TransferRecordView,
    msg: Seq<u8>,
    now2: i64,
    r: Result<(), TransferError>,
)
    requires
        v0.wf(),
        v0.record_for(c) == Some(stale),
        stale.updated_at < i64::MAX,
        admit_effect(v0, v1, c, key, x1, batch, now),
        attach_outcome(v1, v2, stale.new_user_auth_key, msg, c, Some(stale.updated_at), r, now2),
    ensures
        r == Err::<(), TransferError>(TransferError::NotFound) || r == Err::<(), TransferError>(
            TransferError::ConflictingWrite,
        ),
        v2 == v1,
        v1.record_for(c) matches Some(fresh) && fresh.updated_at > stale.updated_at,
{
    assert(next_stamp(Some(stale.updated_at), now) > stale.updated_at);
}

/// After a transfer of coin `c` to `key` is admitted, a duplicate check for
/// the same coin, key and batch finds it, and one for another key does not.
pub proof fn lemma_admission_detected(
    before: StoreModel,
    after: StoreModel,
    c: Seq<char>,
    key: Seq<u8>,
    x1: Seq<u8>,
    batch: Option<Seq<char>>,
    now: i64,
    other_key: Seq<u8>,
)
    requires
        before.wf(),
        admit_effect(before, after, c, key, x1, batch, now),
    ensures
        after.transfer_exists(c, key, batch),
        other_key != key ==> !after.transfer_exists(c, other_key, batch),
{
}

} // verus!
