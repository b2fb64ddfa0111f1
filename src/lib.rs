//! Transfer records and batch coordination for statechain coin transfers.
//!
//! A [`store::TransferStore`] keeps at most one pending transfer per coin,
//! assigns one commencement time per batch of coins that move together, and
//! accepts the encrypted hand-off message only for the newest record of a coin.

pub mod outside;
pub mod record;
pub mod store;
pub mod transfer;
pub mod laws;
pub mod token;
