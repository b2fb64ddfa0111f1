use secp256k1_zkp::{PublicKey, Secp256k1, SecretKey};

use statechain_transfer::record::bytes_equal;
use statechain_transfer::store::{
    compute_next_stamp, get_batch_id_and_time_by_statechain_id, get_batch_time_by_batch_id,
    is_batch_locked, TransferError, TransferStore,
};
use statechain_transfer::transfer::{
    exists_msg_for_same_statechain_id_and_new_user_auth_key, insert_new_transfer,
    join_or_get_batch_time, update_transfer_msg, update_transfer_msg_if_current,
};

fn key(n: u8) -> PublicKey {
    let secp = Secp256k1::new();
    let sk = SecretKey::from_slice(&[n; 32]).unwrap();
    PublicKey::from_secret_key(&secp, &sk)
}

fn some(s: &str) -> Option<String> {
    Some(s.to_string())
}

#[test]
fn solo_transfer_takes_message_and_has_no_batch() {
    let mut store = TransferStore::new();
    let coin = "coin1".to_string();
    insert_new_transfer(&mut store, &key(1), &[7u8; 32], &coin, &None);
    let r = update_transfer_msg(&mut store, &key(1), &b"blob1".to_vec(), "coin1");
    assert_eq!(r, Ok(()));
    assert_eq!(get_batch_id_and_time_by_statechain_id(&store, "coin1"), None);
    let rec = store.get_record("coin1").unwrap();
    assert_eq!(rec.encrypted_transfer_msg, Some(b"blob1".to_vec()));
    assert!(!rec.locked);
}

#[test]
fn batch_members_share_commencement_time() {
    let mut store = TransferStore::new();
    insert_new_transfer(&mut store, &key(1), &[1u8; 32], &"coin1".to_string(), &some("batchX"));
    insert_new_transfer(&mut store, &key(2), &[2u8; 32], &"coin2".to_string(), &some("batchX"));
    let r1 = store.get_record("coin1").unwrap();
    let r2 = store.get_record("coin2").unwrap();
    assert!(r1.batch_time.is_some());
    assert_eq!(r1.batch_time, r2.batch_time);
    assert!(is_batch_locked(&store, "batchX"));
    assert_eq!(get_batch_time_by_batch_id(&store, "batchX"), r1.batch_time);
    assert_eq!(
        get_batch_id_and_time_by_statechain_id(&store, "coin2"),
        Some(("batchX".to_string(), r1.batch_time.unwrap()))
    );
}

#[test]
fn readmission_supersedes_earlier_record() {
    let mut store = TransferStore::new();
    let coin = "coin1".to_string();
    insert_new_transfer(&mut store, &key(1), &[1u8; 32], &coin, &None);
    let first = store.get_record("coin1").unwrap().updated_at;
    insert_new_transfer(&mut store, &key(1), &[2u8; 32], &coin, &None);
    assert_eq!(store.len(), 1);
    let rec = store.get_record("coin1").unwrap();
    assert_eq!(rec.x1, [2u8; 32]);
    assert!(rec.updated_at > first);
    assert!(exists_msg_for_same_statechain_id_and_new_user_auth_key(&store, &key(1), "coin1", &None));
    let r = update_transfer_msg_if_current(&mut store, &key(1), &b"late".to_vec(), "coin1", first);
    assert_eq!(r, Err(TransferError::ConflictingWrite));
    assert_eq!(store.get_record("coin1").unwrap().encrypted_transfer_msg, None);
}

#[test]
fn duplicate_check_matches_exact_batch() {
    let mut store = TransferStore::new();
    assert!(!exists_msg_for_same_statechain_id_and_new_user_auth_key(&store, &key(1), "coin1", &some("batchX")));
    insert_new_transfer(&mut store, &key(1), &[1u8; 32], &"coin1".to_string(), &some("batchX"));
    assert!(exists_msg_for_same_statechain_id_and_new_user_auth_key(&store, &key(1), "coin1", &some("batchX")));
    assert!(!exists_msg_for_same_statechain_id_and_new_user_auth_key(&store, &key(1), "coin1", &some("batchY")));
    assert!(exists_msg_for_same_statechain_id_and_new_user_auth_key(&store, &key(1), "coin1", &None));
}

#[test]
fn repeated_admissions_leave_one_record() {
    let mut store = TransferStore::new();
    let coin = "coin1".to_string();
    for n in 1u8..=4 {
        insert_new_transfer(&mut store, &key(n), &[n; 32], &coin, &None);
        assert_eq!(store.len(), 1);
        let rec = store.get_record("coin1").unwrap();
        assert_eq!(rec.new_user_auth_key, key(n).serialize());
        assert_eq!(rec.x1, [n; 32]);
    }
    insert_new_transfer(&mut store, &key(9), &[9u8; 32], &"coin2".to_string(), &None);
    assert_eq!(store.len(), 2);
}

#[test]
fn batch_time_is_fixed_by_first_join() {
    let mut store = TransferStore::new();
    let t = join_or_get_batch_time(&mut store, "batchX");
    for _ in 0..3 {
        assert_eq!(join_or_get_batch_time(&mut store, "batchX"), t);
    }
    insert_new_transfer(&mut store, &key(1), &[1u8; 32], &"coin1".to_string(), &some("batchX"));
    assert_eq!(store.get_record("coin1").unwrap().batch_time, Some(t));
}

#[test]
fn join_batch_keeps_first_time() {
    let mut store = TransferStore::new();
    assert_eq!(store.join_batch("b", 100), 100);
    assert_eq!(store.join_batch("b", 200), 100);
    assert_eq!(store.join_batch("c", 50), 50);
    assert_eq!(get_batch_time_by_batch_id(&store, "b"), None);
    assert!(!is_batch_locked(&store, "b"));
}

#[test]
fn locked_exactly_when_batched() {
    let mut store = TransferStore::new();
    insert_new_transfer(&mut store, &key(1), &[1u8; 32], &"solo".to_string(), &None);
    insert_new_transfer(&mut store, &key(2), &[2u8; 32], &"member".to_string(), &some("b"));
    let solo = store.get_record("solo").unwrap();
    let member = store.get_record("member").unwrap();
    assert!(!solo.locked);
    assert_eq!(solo.batch_id, None);
    assert_eq!(solo.batch_time, None);
    assert!(member.locked);
    assert_eq!(member.batch_id, some("b"));
    assert!(member.batch_time.is_some());
}

#[test]
fn stale_writer_cannot_attach() {
    let mut store = TransferStore::new();
    let coin = "c".to_string();
    store.admit_transfer(&[1u8; 33], &[1u8; 32], &coin, &None, 1000);
    store.admit_transfer(&[2u8; 33], &[2u8; 32], &coin, &None, 1000);
    assert_eq!(store.attach_message(&[1u8; 33], &vec![5], "c", Some(1000), 1200), Err(TransferError::NotFound));
    store.admit_transfer(&[1u8; 33], &[3u8; 32], &coin, &None, 1000);
    assert_eq!(store.get_record("c").unwrap().updated_at, 1002);
    assert_eq!(store.attach_message(&[1u8; 33], &vec![5], "c", Some(1000), 1200), Err(TransferError::ConflictingWrite));
    assert_eq!(store.get_record("c").unwrap().encrypted_transfer_msg, None);
    assert_eq!(store.attach_message(&[1u8; 33], &vec![5], "c", Some(1002), 1200), Ok(()));
    let rec = store.get_record("c").unwrap();
    assert_eq!(rec.encrypted_transfer_msg, Some(vec![5]));
    assert_eq!(rec.updated_at, 1200);
}

#[test]
fn admitted_transfer_is_detected() {
    let mut store = TransferStore::new();
    store.admit_transfer(&[4u8; 33], &[0u8; 32], &"c".to_string(), &some("b"), 10);
    assert!(store.transfer_exists(&[4u8; 33], "c", &some("b")));
    assert!(!store.transfer_exists(&[5u8; 33], "c", &some("b")));
    assert!(!store.transfer_exists(&[4u8; 33], "d", &None));
}

#[test]
fn attach_to_unknown_coin_is_not_found() {
    let mut store = TransferStore::new();
    assert_eq!(update_transfer_msg(&mut store, &key(1), &vec![1, 2], "nothing"), Err(TransferError::NotFound));
    assert_eq!(store.len(), 0);
}

#[test]
fn attach_with_wrong_key_is_not_found() {
    let mut store = TransferStore::new();
    insert_new_transfer(&mut store, &key(1), &[1u8; 32], &"coin1".to_string(), &None);
    assert_eq!(update_transfer_msg(&mut store, &key(2), &vec![1], "coin1"), Err(TransferError::NotFound));
    assert_eq!(store.get_record("coin1").unwrap().encrypted_transfer_msg, None);
}

#[test]
fn next_stamp_values() {
    assert_eq!(compute_next_stamp(None, 5), 5);
    assert_eq!(compute_next_stamp(Some(3), 5), 5);
    assert_eq!(compute_next_stamp(Some(10), 5), 11);
    assert_eq!(compute_next_stamp(Some(5), 5), 6);
    assert_eq!(compute_next_stamp(Some(i64::MAX), 0), i64::MAX);
}

#[test]
fn admission_stamps_and_reuses_batch_time() {
    let mut store = TransferStore::new();
    store.admit_transfer(&[1u8; 33], &[1u8; 32], &"a".to_string(), &some("b"), 500);
    store.admit_transfer(&[2u8; 33], &[2u8; 32], &"z".to_string(), &some("b"), 900);
    let a = store.get_record("a").unwrap();
    let z = store.get_record("z").unwrap();
    assert_eq!(a.updated_at, 500);
    assert_eq!(z.updated_at, 900);
    assert_eq!(a.batch_time, Some(500));
    assert_eq!(z.batch_time, Some(500));
    assert_eq!(get_batch_time_by_batch_id(&store, "b"), Some(500));
}

#[test]
fn stored_key_is_compressed_encoding() {
    let mut store = TransferStore::new();
    let k = key(3);
    insert_new_transfer(&mut store, &k, &[3u8; 32], &"coin3".to_string(), &None);
    let rec = store.get_record("coin3").unwrap();
    assert_eq!(rec.new_user_auth_key, k.serialize());
    assert!(rec.new_user_auth_key[0] == 2 || rec.new_user_auth_key[0] == 3);
    assert!(store.transfer_exists(&k.serialize(), "coin3", &None));
}

#[test]
fn stamp_comes_from_clock() {
    let mut store = TransferStore::new();
    insert_new_transfer(&mut store, &key(1), &[1u8; 32], &"coin1".to_string(), &None);
    // microseconds since the epoch, well after 2020
    assert!(store.get_record("coin1").unwrap().updated_at > 1_577_836_800_000_000);
}

#[test]
fn byte_comparison() {
    assert!(bytes_equal(&[1, 2, 3], &[1, 2, 3]));
    assert!(!bytes_equal(&[1, 2, 3], &[1, 2, 4]));
    assert!(!bytes_equal(&[1, 2], &[1, 2, 3]));
    assert!(bytes_equal(&[], &[]));
}
