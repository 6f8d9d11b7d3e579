//! The accounts an operation is handed.

use vstd::prelude::*;

verus! {

/// An account as the caller supplies it for the length of one call: its
/// address, the program that controls it, and its byte buffer.
///
/// Nothing here vouches for an account. Each operation checks the address and
/// the controlling program it expects before it trusts the buffer.
#[derive(Clone, Debug)]
pub struct AccountRef {
    /// The account's address.
    pub key: [u8; 32],
    /// The program that controls the account.
    pub owner: [u8; 32],
    /// The account's data.
    pub data: Vec<u8>,
}

/// What an [`AccountRef`] stands for.
pub struct AccountModel {
    pub key: Seq<u8>,
    pub owner: Seq<u8>,
    pub data: Seq<u8>,
}

impl View for AccountRef {
    type V = AccountModel;

    open spec fn view(&self) -> AccountModel {
        AccountModel { key: self.key@, owner: self.owner@, data: self.data@ }
    }
}

} // verus!
