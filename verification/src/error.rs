//! The errors an operation can end in.

use vstd::prelude::*;

verus! {

/// A byte string that cannot be read as what it should hold.
#[derive(Clone, Copy, Debug, PartialEq, Eq, Structural)]
pub enum DecodeError {
    /// The instruction has no opcode byte, or one that selects no operation.
    InvalidOpcode,
    /// The operation's payload is not exactly eight bytes long.
    BadPayloadLength,
    /// The buffer is shorter than a store record.
    BufferTooSmall,
}

/// The failure a ledger reported for a transfer, carried as the ledger's own
/// numeric code and never interpreted.
#[derive(Clone, Copy, Debug, PartialEq, Eq, Structural)]
pub struct LedgerError {
    pub code: u64,
}

/// Why an operation was refused.
#[derive(Clone, Copy, Debug, PartialEq, Eq, Structural)]
pub enum CoreError {
    /// The instruction, its payload or the record buffer is malformed.
    Decode(DecodeError),
    /// Fewer accounts were supplied than the operation takes.
    NotEnoughAccounts,
    /// The slot already holds an initialized record.
    AlreadyInitialized,
    /// The record's price is zero, so nothing is on offer.
    NoActiveOffer,
    /// The authorizing identity is not the one the operation expects.
    Unauthorized,
    /// The seller-side account is not controlled by the asset ledger.
    WrongLedgerOwner,
    /// The seller-side account is not the asset this store trades.
    AssetMismatch,
    /// The amount offered is below the record's price.
    InsufficientPayment,
    /// A ledger refused the transfer.
    Ledger(LedgerError),
}

} // verus!
