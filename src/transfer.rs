//! The caller-facing transfer operations: keys arrive as public keys and
//! changes are stamped with the current time.

use vstd::prelude::*;

use secp256k1_zkp::PublicKey;

use crate::outside::{now_micros, serialize_key, serialized_key};
use crate::record::opt_str_view;
use crate::store::{admit_effect, attach_outcome, join_effect, TransferError, TransferStore};

verus! {

/// Whether a transfer of `statechain_id` to `new_user_auth_key` is already
/// pending, in `batch_id` when one is given.
pub fn exists_msg_for_same_statechain_id_and_new_user_auth_key(
    store: &TransferStore,
    new_user_auth_key: &PublicKey,
    statechain_id: &str,
    batch_id: &Option<String>,
) -> (r: bool)
    requires
        store.wf(),
    ensures
        r == store@.transfer_exists(
            statechain_id@,
            serialized_key(*new_user_auth_key),
            opt_str_view(*batch_id),
        ),
{
    let key = serialize_key(new_user_auth_key);
    store.transfer_exists(&key, statechain_id, batch_id)
}

/// The commencement time of `batch_id`: the one already fixed, or the
/// current time, which is then fixed for every later member.
pub fn join_or_get_batch_time(store: &mut TransferStore, batch_id: &str) -> (t: i64)
    requires
        old(store).wf(),
    ensures
        final(store).wf(),
        final(store)@.batch_time_for(batch_id@) == Some(t),
        final(store)@.records == old(store)@.records,
        old(store)@.batch_time_for(batch_id@) matches Some(t0) ==> t == t0
            && final(store)@.batches == old(store)@.batches,
        exists|now: i64| join_effect(old(store)@, final(store)@, batch_id@, now, t),
{
    let now = now_micros();
    store.join_batch(batch_id, now)
}

/// Supersedes any pending transfer of `statechain_id` by one to
/// `new_user_auth_key` with secret share `x1`, joining `batch_id` when given.
pub fn insert_new_transfer(
    store: &mut TransferStore,
    new_user_auth_key: &PublicKey,
    x1: &[u8; 32],
    statechain_id: &String,
    batch_id: &Option<String>,
)
    requires
        old(store).wf(),
    ensures
        final(store).wf(),
        exists|now: i64|
            admit_effect(
                old(store)@,
                final(store)@,
                statechain_id@,
                serialized_key(*new_user_auth_key),
                x1@,
                opt_str_view(*batch_id),
                now,
            ),
{
    let key = serialize_key(new_user_auth_key);
    let now = now_micros();
    store.admit_transfer(&key, x1, statechain_id, batch_id, now);
}

/// Attaches the encrypted hand-off message to the pending transfer of
/// `statechain_id` to `new_user_auth_key`.
pub fn update_transfer_msg(
    store: &mut TransferStore,
    new_user_auth_key: &PublicKey,
    enc_transfer_msg: &Vec<u8>,
    statechain_id: &str,
) -> (r: Result<(), TransferError>)
    requires
        old(store).wf(),
    ensures
        final(store).wf(),
        exists|now: i64|
            attach_outcome(
                old(store)@,
                final(store)@,
                serialized_key(*new_user_auth_key),
                enc_transfer_msg@,
                statechain_id@,
                None,
                r,
                now,
            ),
{
    let key = serialize_key(new_user_auth_key);
    let now = now_micros();
    store.attach_message(&key, enc_transfer_msg, statechain_id, None, now)
}

/// Attaches the encrypted hand-off message as [`update_transfer_msg`] does,
/// provided the record still carries the stamp `expected_updated_at`.
pub fn update_transfer_msg_if_current(
    store: &mut TransferStore,
    new_user_auth_key: &PublicKey,
    enc_transfer_msg: &Vec<u8>,
    statechain_id: &str,
    expected_updated_at: i64,
) -> (r: Result<(), TransferError>)
    requires
        old(store).wf(),
    ensures
        final(store).wf(),
        exists|now: i64|
            attach_outcome(
                old(store)@,
                final(store)@,
                serialized_key(*new_user_auth_key),
                enc_transfer_msg@,
                statechain_id@,
                Some(expected_updated_at),
                r,
                now,
            ),
{
    let key = serialize_key(new_user_auth_key);
    let now = now_micros();
    store.attach_message(&key, enc_transfer_msg, statechain_id, Some(expected_updated_at), now)
}

} // verus!
