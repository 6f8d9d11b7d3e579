//! A store record for one sellable asset, and the state transitions that act
//! on it.
//!
//! A store is a fixed-layout record kept in an account's byte buffer. It names
//! the asset the store trades, the principal that owns the store, and the
//! current ask price. Four operations act on it: creating the record, changing
//! its price, and two kinds of trade that each ask for one ledger transfer.
//!
//! Every operation is a function from the accounts and the payload it is
//! handed to a result. An operation never moves value itself: where a trade
//! goes through, it returns the ledger call to be dispatched.

pub mod error;
pub mod codec;
pub mod account;
pub mod ledger;
pub mod ops;
pub mod process;

pub use error::{CoreError, DecodeError, LedgerError};
pub use codec::{decode, decode_amount, encode, encode_into, same_id, RecordState, StoreRecord, RECORD_LEN};
pub use account::AccountRef;
pub use ledger::{CallAccount, LedgerCall};
pub use ops::{buy, initialize_store, sell, update_price, INITIAL_PRICE};
pub use process::{process_instruction, settle};
