//! The two ledgers a trade can move value on, and the calls that ask them to.
//!
//! The asset ledger is the SPL token program; the native-currency ledger is
//! the system program. Both define the wire form of their own transfer
//! instruction, so the calls are built by their crates. What those builders
//! return is stated here and believed, not proved.

use vstd::prelude::*;
use solana_program::program_error::ProgramError;
use solana_program::pubkey::Pubkey;
use crate::codec::le_bytes;
use crate::error::LedgerError;

verus! {

/// One account named in a ledger call.
#[derive(Clone, Copy, Debug)]
pub struct CallAccount {
    pub key: [u8; 32],
    /// The call needs this account's signature.
    pub is_signer: bool,
    /// The call may change this account.
    pub is_writable: bool,
}

/// A transfer to dispatch: the ledger's program, the accounts it acts on, and
/// the instruction bytes in the ledger's own format.
#[derive(Clone, Debug)]
pub struct LedgerCall {
    pub program_id: [u8; 32],
    pub accounts: Vec<CallAccount>,
    pub data: Vec<u8>,
}

/// What a [`CallAccount`] stands for.
pub struct CallAccountModel {
    pub key: Seq<u8>,
    pub is_signer: bool,
    pub is_writable: bool,
}

/// What a [`LedgerCall`] stands for.
pub struct LedgerCallModel {
    pub program_id: Seq<u8>,
    pub accounts: Seq<CallAccountModel>,
    pub data: Seq<u8>,
}

impl View for CallAccount {
    type V = CallAccountModel;

    open spec fn view(&self) -> CallAccountModel {
        CallAccountModel {
            key: self.key@,
            is_signer: self.is_signer,
            is_writable: self.is_writable,
        }
    }
}

impl View for LedgerCall {
    type V = LedgerCallModel;

    open spec fn view(&self) -> LedgerCallModel {
        LedgerCallModel {
            program_id: self.program_id@,
            accounts: self.accounts@.map_values(|account: CallAccount| account@),
            data: self.data@,
        }
    }
}

/// The address of the asset ledger's program,
/// `TokenkegQfeZyiNwAJbNbGKPFXCWuBvf9Ss623VQ5DA`.
pub open spec fn asset_ledger_id() -> Seq<u8> {
    seq![
        6u8, 221u8, 246u8, 225u8, 215u8, 101u8, 161u8, 147u8,
        217u8, 203u8, 225u8, 70u8, 206u8, 235u8, 121u8, 172u8,
        28u8, 180u8, 133u8, 237u8, 95u8, 91u8, 55u8, 145u8,
        58u8, 140u8, 245u8, 133u8, 126u8, 255u8, 0u8, 169u8,
    ]
}

/// The address of the native-currency ledger's program: thirty-two zero bytes.
pub open spec fn native_ledger_id() -> Seq<u8> {
    Seq::new(32, |i: int| 0u8)
}

/// The asset ledger's transfer of `amount` units from `source` to
/// `destination`, signed by `authority` alone.
pub open spec fn asset_transfer(
    source: Seq<u8>,
    destination: Seq<u8>,
    authority: Seq<u8>,
    amount: nat,
) -> LedgerCallModel {
    LedgerCallModel {
        program_id: asset_ledger_id(),
        accounts: seq![
            CallAccountModel { key: source, is_signer: false, is_writable: true },
            CallAccountModel { key: destination, is_signer: false, is_writable: true },
            CallAccountModel { key: authority, is_signer: true, is_writable: false },
        ],
        data: seq![3u8] + le_bytes(amount),
    }
}

/// The native-currency ledger's transfer of `amount` units from `from`, who
/// signs, to `to`.
pub open spec fn native_transfer(from: Seq<u8>, to: Seq<u8>, amount: nat) -> LedgerCallModel {
    LedgerCallModel {
        program_id: native_ledger_id(),
        accounts: seq![
            CallAccountModel { key: from, is_signer: true, is_writable: true },
            CallAccountModel { key: to, is_signer: false, is_writable: true },
        ],
        data: seq![2u8, 0u8, 0u8, 0u8] + le_bytes(amount),
    }
}

/// `solana_program::program_error::ProgramError`, the error the ledgers'
/// crates report. It is passed through unread.
#[verifier::external_type_specification]
#[verifier::external_body]
pub struct ExProgramError(ProgramError);

/// `spl_token::id`: the address the token program is deployed at. Believed:
/// that it is the address `asset_ledger_id` spells out.
#[verifier::external_body]
pub(crate) fn asset_ledger_program() -> (id: [u8; 32])
    ensures
        id@ == asset_ledger_id(),
{
    spl_token::id().to_bytes()
}

/// `spl_token::instruction::transfer`, called without extra signers. Believed:
/// that it refuses every program but the asset ledger's own and nothing else,
/// and that the instruction it builds names the source and the destination as
/// writable, the authority as the one signer, and carries the tag 3 followed
/// by the amount in little-endian order.
#[verifier::external_body]
pub(crate) fn asset_transfer_call(
    ledger: &[u8; 32],
    source: &[u8; 32],
    destination: &[u8; 32],
    authority: &[u8; 32],
    amount: u64,
) -> (result: Result<LedgerCall, ProgramError>)
    ensures
        result is Ok <==> ledger@ == asset_ledger_id(),
        result matches Ok(call) ==> call@ == asset_transfer(
            source@,
            destination@,
            authority@,
            amount as nat,
        ),
{
    let built = spl_token::instruction::transfer(
        &Pubkey::new_from_array(*ledger),
        &Pubkey::new_from_array(*source),
        &Pubkey::new_from_array(*destination),
        &Pubkey::new_from_array(*authority),
        &[],
        amount,
    )?;
    let accounts = built.accounts.iter().map(|meta| CallAccount {
        key: meta.pubkey.to_bytes(),
        is_signer: meta.is_signer,
        is_writable: meta.is_writable,
    }).collect();
    Ok(LedgerCall { program_id: built.program_id.to_bytes(), accounts, data: built.data })
}

/// `solana_program::system_instruction::transfer`. Believed: that the
/// instruction it builds is addressed to the system program, names the payer
/// as writable signer and the recipient as writable, and carries the variant
/// index 2 as four little-endian bytes followed by the amount in little-endian
/// order.
#[verifier::external_body]
pub(crate) fn native_transfer_call(from: &[u8; 32], to: &[u8; 32], amount: u64) -> (call:
    LedgerCall)
    ensures
        call@ == native_transfer(from@, to@, amount as nat),
{
    let built = solana_program::system_instruction::transfer(
        &Pubkey::new_from_array(*from),
        &Pubkey::new_from_array(*to),
        amount,
    );
    let accounts = built.accounts.iter().map(|meta| CallAccount {
        key: meta.pubkey.to_bytes(),
        is_signer: meta.is_signer,
        is_writable: meta.is_writable,
    }).collect();
    LedgerCall { program_id: built.program_id.to_bytes(), accounts, data: built.data }
}

/// The conversion of a `ProgramError` into its numeric code. Nothing is
/// claimed of the code.
#[verifier::external_body]
pub(crate) fn ledger_error(error: ProgramError) -> LedgerError {
    LedgerError { code: u64::from(error) }
}

} // verus!
