//! The entry point: one instruction against one ordered list of accounts.
//!
//! An instruction is an opcode byte followed by the operation's payload. The
//! opcode selects the operation and with it the roles of the accounts, by
//! position:
//!
//! | opcode | operation | accounts                                                       |
//! |--------|-----------|----------------------------------------------------------------|
//! | 0      | create    | store, asset account, owner                                    |
//! | 1      | reprice   | store, owner                                                   |
//! | 2      | sell      | store, seller's asset account, buyer's asset account, seller   |
//! | 3      | buy       | store, seller's asset account, buyer's asset account, buyer,   |
//! |        |           | system program                                                 |
//!
//! Accounts beyond those an operation takes are ignored.

use vstd::prelude::*;
use crate::account::{AccountModel, AccountRef};
use crate::codec::{decoded, le_value, written};
use crate::error::{CoreError, DecodeError, LedgerError};
use crate::ledger::{LedgerCall, LedgerCallModel};
use crate::ops::{
    buy, buy_outcome, create_check, created, initialize_store, reprice_check, repriced, sell,
    sell_outcome, update_price,
};

verus! {

/// The opcode of the create operation.
pub const OP_CREATE: u8 = 0;

/// The opcode of the reprice operation.
pub const OP_REPRICE: u8 = 1;

/// The opcode of the sell operation.
pub const OP_SELL: u8 = 2;

/// The opcode of the buy operation.
pub const OP_BUY: u8 = 3;

/// What a list of accounts stands for.
pub open spec fn models(accounts: Seq<AccountRef>) -> Seq<AccountModel> {
    accounts.map_values(|account: AccountRef| account@)
}

/// The number of accounts the operation behind `opcode` takes.
pub open spec fn accounts_taken(opcode: u8) -> nat {
    if opcode == OP_CREATE {
        3
    } else if opcode == OP_REPRICE {
        2
    } else if opcode == OP_SELL {
        4
    } else {
        5
    }
}

/// What an operation's verdict comes to when the operation asks for no
/// transfer.
pub open spec fn without_call(verdict: Result<(), CoreError>) -> Result<
    Option<LedgerCallModel>,
    CoreError,
> {
    match verdict {
        Ok(()) => Ok(None),
        Err(e) => Err(e),
    }
}

/// What a trade's outcome comes to as the result of an instruction.
pub open spec fn with_call(outcome: Result<LedgerCallModel, CoreError>) -> Result<
    Option<LedgerCallModel>,
    CoreError,
> {
    match outcome {
        Ok(call) => Ok(Some(call)),
        Err(e) => Err(e),
    }
}

/// What an instruction comes to against a list of accounts: the error it is
/// refused with, or the transfer it asks for, if any.
///
/// An instruction without an opcode, or with one above 3, is refused as
/// undecodable. Then the accounts are counted, and only then does the
/// operation check its own preconditions.
pub open spec fn process_outcome(accounts: Seq<AccountModel>, instruction: Seq<u8>) -> Result<
    Option<LedgerCallModel>,
    CoreError,
> {
    if instruction.len() == 0 || instruction[0] > OP_BUY {
        Err(CoreError::Decode(DecodeError::InvalidOpcode))
    } else if accounts.len() < accounts_taken(instruction[0]) {
        Err(CoreError::NotEnoughAccounts)
    } else {
        let payload = instruction.skip(1);
        if instruction[0] == OP_CREATE {
            without_call(create_check(accounts[0].data))
        } else if instruction[0] == OP_REPRICE {
            without_call(reprice_check(accounts[0].data, accounts[1].key, payload))
        } else if instruction[0] == OP_SELL {
            with_call(sell_outcome(accounts[0], accounts[1], accounts[2], accounts[3], payload))
        } else {
            with_call(buy_outcome(accounts[0], accounts[1], accounts[3], payload))
        }
    }
}

/// The store's buffer after an instruction that went through. Only create
/// and reprice write to it.
pub open spec fn store_after(accounts: Seq<AccountModel>, instruction: Seq<u8>) -> Seq<u8>
    recommends
        process_outcome(accounts, instruction) is Ok,
{
    if instruction[0] == OP_CREATE {
        written(accounts[0].data, created(accounts[1].key, accounts[2].key))
    } else if instruction[0] == OP_REPRICE {
        written(
            accounts[0].data,
            repriced(decoded(accounts[0].data), le_value(instruction.skip(1))),
        )
    } else {
        accounts[0].data
    }
}

/// A result whose call, if there is one, stands for `model`'s.
pub open spec fn answers(
    result: Result<Option<LedgerCall>, CoreError>,
    model: Result<Option<LedgerCallModel>, CoreError>,
) -> bool {
    match result {
        Ok(Some(call)) => model == Ok::<Option<LedgerCallModel>, CoreError>(Some(call@)),
        Ok(None) => model == Ok::<Option<LedgerCallModel>, CoreError>(None),
        Err(e) => model == Err::<Option<LedgerCallModel>, CoreError>(e),
    }
}

/// Carries out one instruction against `accounts`.
///
/// The first account is the store. Of all the accounts only the store's
/// buffer is ever written, and only by an instruction that goes through; one
/// that is refused leaves every account as it was. Where the instruction is a
/// trade that goes through, the result holds the one transfer to dispatch.
/// `program_id`, the address this code runs under, plays no part.
#[allow(unused_variables)]
pub fn process_instruction(
    program_id: &[u8; 32],
    accounts: &mut Vec<AccountRef>,
    instruction_data: &[u8],
) -> (result: Result<Option<LedgerCall>, CoreError>)
    ensures
        answers(result, process_outcome(models(old(accounts)@), instruction_data@)),
        final(accounts)@.len() == old(accounts)@.len(),
        forall|i: int| 1 <= i < old(accounts)@.len() ==> final(accounts)@[i] == old(accounts)@[i],
        result is Err ==> models(final(accounts)@) == models(old(accounts)@),
        result is Ok ==> models(final(accounts)@) == models(old(accounts)@).update(
            0,
            AccountModel {
                data: store_after(models(old(accounts)@), instruction_data@),
                ..old(accounts)@[0]@
            },
        ),
{
    if instruction_data.len() == 0 {
        return Err(CoreError::Decode(DecodeError::InvalidOpcode));
    }
    let opcode = instruction_data[0];
    let payload = &instruction_data[1..instruction_data.len()];
    assert(payload@ == instruction_data@.skip(1));
    let count = accounts.len();
    if opcode == OP_CREATE {
        if count < 3 {
            return Err(CoreError::NotEnoughAccounts);
        }
        let (store, others) = accounts.as_mut_slice().split_at_mut(1);
        match initialize_store(&mut store[0], &others[0], &others[1]) {
            Ok(()) => Ok(None),
            Err(e) => Err(e),
        }
    } else if opcode == OP_REPRICE {
        if count < 2 {
            return Err(CoreError::NotEnoughAccounts);
        }
        let (store, others) = accounts.as_mut_slice().split_at_mut(1);
        match update_price(&mut store[0], &others[0], payload) {
            Ok(()) => Ok(None),
            Err(e) => Err(e),
        }
    } else if opcode == OP_SELL {
        if count < 4 {
            return Err(CoreError::NotEnoughAccounts);
        }
        match sell(&accounts[0], &accounts[1], &accounts[2], &accounts[3], payload) {
            Ok(call) => Ok(Some(call)),
            Err(e) => Err(e),
        }
    } else if opcode == OP_BUY {
        if count < 5 {
            return Err(CoreError::NotEnoughAccounts);
        }
        match buy(&accounts[0], &accounts[1], &accounts[2], &accounts[3], &accounts[4], payload) {
            Ok(call) => Ok(Some(call)),
            Err(e) => Err(e),
        }
    } else {
        Err(CoreError::Decode(DecodeError::InvalidOpcode))
    }
}

/// Folds the ledger's answer to a dispatched transfer into the result of the
/// instruction: a failure is passed on as it came.
pub fn settle(answer: Result<(), LedgerError>) -> (result: Result<(), CoreError>)
    ensures
        result == match answer {
            Ok(()) => Ok::<(), CoreError>(()),
            Err(e) => Err::<(), CoreError>(CoreError::Ledger(e)),
        },
{
    match answer {
        Ok(()) => Ok(()),
        Err(e) => Err(CoreError::Ledger(e)),
    }
}

} // verus!
