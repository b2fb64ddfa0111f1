//! A pending transfer of one coin, and its mathematical model.

use vstd::prelude::*;

verus! {

/// The model of an optional string.
pub open spec fn opt_str_view(o: Option<String>) -> Option<Seq<char>> {
    match o {
        Some(s) => Some(s@),
        None => None,
    }
}

/// The model of an optional byte vector.
pub open spec fn opt_bytes_view(o: Option<Vec<u8>>) -> Option<Seq<u8>> {
    match o {
        Some(b) => Some(b@),
        None => None,
    }
}

/// One pending ownership transfer of a statechain coin.
pub struct TransferRecord {
    /// The coin being transferred.
    pub statechain_id: String,
    /// Compressed public key of the party that becomes the new holder.
    pub new_user_auth_key: [u8; 33],
    /// The secret share contributed by the current holder.
    pub x1: [u8; 32],
    /// The encrypted hand-off message, once the current holder has sent it.
    pub encrypted_transfer_msg: Option<Vec<u8>>,
    /// The batch whose coins must transfer together, if any.
    pub batch_id: Option<String>,
    /// The commencement time shared by every member of the batch.
    pub batch_time: Option<i64>,
    /// Whether the record takes part in a batch.
    pub locked: bool,
    /// Microsecond stamp of the last change; the optimistic-concurrency token.
    pub updated_at: i64,
}

/// The model of a [`TransferRecord`].
pub ghost struct TransferRecordView {
    pub statechain_id: Seq<char>,
    pub new_user_auth_key: Seq<u8>,
    pub x1: Seq<u8>,
    pub encrypted_transfer_msg: Option<Seq<u8>>,
    pub batch_id: Option<Seq<char>>,
    pub batch_time: Option<i64>,
    pub locked: bool,
    pub updated_at: i64,
}

impl View for TransferRecord {
    type V = TransferRecordView;

    open spec fn view(&self) -> TransferRecordView {
        TransferRecordView {
            statechain_id: self.statechain_id@,
            new_user_auth_key: self.new_user_auth_key@,
            x1: self.x1@,
            encrypted_transfer_msg: opt_bytes_view(self.encrypted_transfer_msg),
            batch_id: opt_str_view(self.batch_id),
            batch_time: self.batch_time,
            locked: self.locked,
            updated_at: self.updated_at,
        }
    }
}

impl TransferRecordView {
    /// A record is locked exactly when it belongs to a batch, and then it
    /// carries the batch's commencement time.
    pub open spec fn lock_coherent(self) -> bool {
        &&& self.locked == self.batch_id.is_some()
        &&& self.batch_time.is_some() == self.batch_id.is_some()
    }
}

/// Copies an optional string.
pub fn clone_opt_string(o: &Option<String>) -> (r: Option<String>)
    ensures
        opt_str_view(r) == opt_str_view(*o),
{
    match o {
        Some(s) => Some(s.clone()),
        None => None,
    }
}

/// Copies an optional byte vector.
pub fn clone_opt_bytes(o: &Option<Vec<u8>>) -> (r: Option<Vec<u8>>)
    ensures
        opt_bytes_view(r) == opt_bytes_view(*o),
{
    match o {
        Some(b) => Some(b.clone()),
        None => None,
    }
}

impl TransferRecord {
    /// A copy of the record.
    pub fn duplicate(&self) -> (r: TransferRecord)
        ensures
            r@ == self@,
    {
        TransferRecord {
            statechain_id: self.statechain_id.clone(),
            new_user_auth_key: self.new_user_auth_key,
            x1: self.x1,
            encrypted_transfer_msg: clone_opt_bytes(&self.encrypted_transfer_msg),
            batch_id: clone_opt_string(&self.batch_id),
            batch_time: self.batch_time,
            locked: self.locked,
            updated_at: self.updated_at,
        }
    }
}

/// Whether two byte slices hold the same bytes.
pub fn bytes_equal(a: &[u8], b: &[u8]) -> (r: bool)
    ensures
        r == (a@ == b@),
{
    if a.len() != b.len() {
        return false;
    }
    let mut i: usize = 0;
    while i < a.len()
        invariant
            a@.len() == b@.len(),
            0 <= i <= a@.len(),
            forall|k: int| 0 <= k < i ==> a@[k] == b@[k],
        decreases a@.len() - i,
    {
        if a[i] != b[i] {
            return false;
        }
        i = i + 1;
    }
    assert(a@ =~= b@);
    true
}

} // verus!
