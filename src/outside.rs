//! The calls this library makes into outside crates.

use vstd::prelude::*;

use secp256k1_zkp::PublicKey;

verus! {

#[verifier::external_type_specification]
#[verifier::external_body]
pub struct ExPublicKey(secp256k1_zkp::PublicKey);

/// The compressed encoding of a public key.
pub uninterp spec fn serialized_key(k: PublicKey) -> Seq<u8>;

/// Relies on `secp256k1_zkp::PublicKey::serialize`: the 33-byte compressed
/// encoding of the key, which depends on the key alone.
#[verifier::external_body]
pub(crate) fn serialize_key(k: &PublicKey) -> (r: [u8; 33])
    ensures
        r@ == serialized_key(*k),
{
    k.serialize()
}

/// Relies on `chrono::Utc::now`: the current time, read as microseconds since
/// the Unix epoch. Nothing is promised of its value.
#[verifier::external_body]
pub(crate) fn now_micros() -> (r: i64) {
    chrono::Utc::now().timestamp_micros()
}

} // verus!
