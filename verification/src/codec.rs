//! The byte layout of a store record, and of the amounts carried in payloads.
//!
//! A record occupies the first [`RECORD_LEN`] bytes of its buffer:
//!
//! | offset | length | field                                   |
//! |--------|--------|-----------------------------------------|
//! | 0      | 1      | state flag, 0 for an uninitialized slot |
//! | 1      | 32     | asset identifier                        |
//! | 33     | 32     | owner identifier                        |
//! | 65     | 8      | price, little-endian                    |
//!
//! Bytes after the record belong to whoever allocated the buffer and are never
//! read or written here.

use vstd::prelude::*;
use crate::error::{CoreError, DecodeError};

verus! {

/// The number of bytes a record occupies.
pub const RECORD_LEN: usize = 73;

/// The number of bytes in an identifier.
pub const ID_LEN: usize = 32;

/// The number of bytes in an amount.
pub const AMOUNT_LEN: usize = 8;

/// Where the asset identifier starts.
pub const ASSET_OFFSET: usize = 1;

/// Where the owner identifier starts.
pub const OWNER_OFFSET: usize = 33;

/// Where the price starts.
pub const PRICE_OFFSET: usize = 65;

/// Whether a slot holds a record yet.
#[derive(Clone, Copy, Debug, PartialEq, Eq, Structural)]
pub enum RecordState {
    Uninitialized,
    Initialized,
}

/// The persistent record of one store.
#[derive(Clone, Copy, Debug)]
pub struct StoreRecord {
    pub state: RecordState,
    /// The asset this store trades.
    pub asset_id: [u8; 32],
    /// The principal that may change the price.
    pub owner_id: [u8; 32],
    /// The ask price. Zero means that nothing is on offer.
    pub price: u64,
}

/// What a [`StoreRecord`] stands for: its fields as mathematical values.
pub struct RecordModel {
    pub state: RecordState,
    pub asset_id: Seq<u8>,
    pub owner_id: Seq<u8>,
    pub price: nat,
}

impl View for StoreRecord {
    type V = RecordModel;

    open spec fn view(&self) -> RecordModel {
        RecordModel {
            state: self.state,
            asset_id: self.asset_id@,
            owner_id: self.owner_id@,
            price: self.price as nat,
        }
    }
}

/// The number that eight bytes spell, least significant byte first.
pub open spec fn le_value(bytes: Seq<u8>) -> nat
    recommends
        bytes.len() == AMOUNT_LEN,
{
    (bytes[0] as nat) + (bytes[1] as nat) * 0x100 + (bytes[2] as nat) * 0x1_0000 + (bytes[3] as nat)
        * 0x100_0000 + (bytes[4] as nat) * 0x1_0000_0000 + (bytes[5] as nat) * 0x100_0000_0000
        + (bytes[6] as nat) * 0x1_0000_0000_0000 + (bytes[7] as nat) * 0x100_0000_0000_0000
}

/// The eight bytes that spell `value`, least significant byte first.
pub open spec fn le_bytes(value: nat) -> Seq<u8>
    recommends
        value <= u64::MAX,
{
    seq![
        (value % 0x100) as u8,
        (value / 0x100 % 0x100) as u8,
        (value / 0x1_0000 % 0x100) as u8,
        (value / 0x100_0000 % 0x100) as u8,
        (value / 0x1_0000_0000 % 0x100) as u8,
        (value / 0x100_0000_0000 % 0x100) as u8,
        (value / 0x1_0000_0000_0000 % 0x100) as u8,
        (value / 0x100_0000_0000_0000 % 0x100) as u8,
    ]
}

/// The state flag as it is written: 0 for an uninitialized slot, 1 for an
/// initialized one.
pub open spec fn state_flag(state: RecordState) -> u8 {
    match state {
        RecordState::Uninitialized => 0,
        RecordState::Initialized => 1,
    }
}

/// The state a flag byte is read as: only 0 marks an uninitialized slot.
pub open spec fn flag_state(flag: u8) -> RecordState {
    if flag == 0 {
        RecordState::Uninitialized
    } else {
        RecordState::Initialized
    }
}

/// The bytes of a record, in layout order.
pub open spec fn encoded(record: RecordModel) -> Seq<u8> {
    seq![state_flag(record.state)] + record.asset_id + record.owner_id + le_bytes(record.price)
}

/// `slot` with `record` written over its first [`RECORD_LEN`] bytes.
pub open spec fn written(slot: Seq<u8>, record: RecordModel) -> Seq<u8> {
    encoded(record) + slot.skip(RECORD_LEN as int)
}

/// The record that the first [`RECORD_LEN`] bytes of a buffer hold.
pub open spec fn decoded(bytes: Seq<u8>) -> RecordModel
    recommends
        bytes.len() >= RECORD_LEN,
{
    RecordModel {
        state: flag_state(bytes[0]),
        asset_id: bytes.subrange(ASSET_OFFSET as int, OWNER_OFFSET as int),
        owner_id: bytes.subrange(OWNER_OFFSET as int, PRICE_OFFSET as int),
        price: le_value(bytes.subrange(PRICE_OFFSET as int, RECORD_LEN as int)),
    }
}

/// Compares two identifiers byte by byte.
pub fn same_id(a: &[u8; 32], b: &[u8; 32]) -> (same: bool)
    ensures
        same == (a@ == b@),
{
    let mut i: usize = 0;
    while i < 32
        invariant
            i <= 32,
            forall|j: int| 0 <= j < i ==> a@[j] == b@[j],
        decreases 32 - i,
    {
        if a[i] != b[i] {
            return false;
        }
        i += 1;
    }
    assert(a@ =~= b@);
    true
}

/// Reads the identifier that starts at `at`.
fn read_id(buffer: &[u8], at: usize) -> (id: [u8; 32])
    requires
        at + ID_LEN <= buffer@.len() <= usize::MAX,
    ensures
        id@ == buffer@.subrange(at as int, at + ID_LEN),
{
    let mut id = [0u8; 32];
    let mut i: usize = 0;
    while i < 32
        invariant
            i <= 32,
            at + ID_LEN <= buffer@.len() <= usize::MAX,
            forall|j: int| 0 <= j < i ==> id@[j] == buffer@[at + j],
        decreases 32 - i,
    {
        id[i] = buffer[at + i];
        i += 1;
    }
    assert(id@ =~= buffer@.subrange(at as int, at + ID_LEN));
    id
}

/// Reads the little-endian amount that starts at `at`.
fn read_amount(buffer: &[u8], at: usize) -> (amount: u64)
    requires
        at + AMOUNT_LEN <= buffer@.len(),
    ensures
        amount == le_value(buffer@.subrange(at as int, at + AMOUNT_LEN)),
{
    let b0 = buffer[at] as u64;
    let b1 = buffer[at + 1] as u64;
    let b2 = buffer[at + 2] as u64;
    let b3 = buffer[at + 3] as u64;
    let b4 = buffer[at + 4] as u64;
    let b5 = buffer[at + 5] as u64;
    let b6 = buffer[at + 6] as u64;
    let b7 = buffer[at + 7] as u64;
    b0 + b1 * 0x100 + b2 * 0x1_0000 + b3 * 0x100_0000 + b4 * 0x1_0000_0000 + b5 * 0x100_0000_0000
        + b6 * 0x1_0000_0000_0000 + b7 * 0x100_0000_0000_0000
}

/// Reads the record at the start of `buffer`.
///
/// Nothing but the length is checked: every flag byte other than 0 reads as
/// initialized, and the identifiers and the price are taken as they stand.
pub fn decode(buffer: &[u8]) -> (result: Result<StoreRecord, CoreError>)
    ensures
        buffer@.len() < RECORD_LEN ==> result == Err::<StoreRecord, CoreError>(
            CoreError::Decode(DecodeError::BufferTooSmall),
        ),
        buffer@.len() >= RECORD_LEN ==> result is Ok && result->Ok_0@ == decoded(buffer@),
{
    if buffer.len() < RECORD_LEN {
        return Err(CoreError::Decode(DecodeError::BufferTooSmall));
    }
    let state = if buffer[0] == 0 {
        RecordState::Uninitialized
    } else {
        RecordState::Initialized
    };
    let asset_id = read_id(buffer, ASSET_OFFSET);
    let owner_id = read_id(buffer, OWNER_OFFSET);
    let price = read_amount(buffer, PRICE_OFFSET);
    Ok(StoreRecord { state, asset_id, owner_id, price })
}

/// Reads an operation's payload as an amount: exactly eight bytes, least
/// significant first.
pub fn decode_amount(payload: &[u8]) -> (result: Result<u64, CoreError>)
    ensures
        payload@.len() != AMOUNT_LEN ==> result == Err::<u64, CoreError>(
            CoreError::Decode(DecodeError::BadPayloadLength),
        ),
        payload@.len() == AMOUNT_LEN ==> result == Ok::<u64, CoreError>(le_value(payload@) as u64),
        payload@.len() == AMOUNT_LEN ==> le_value(payload@) <= u64::MAX,
{
    if payload.len() != AMOUNT_LEN {
        return Err(CoreError::Decode(DecodeError::BadPayloadLength));
    }
    assert(payload@.subrange(0, AMOUNT_LEN as int) =~= payload@);
    Ok(read_amount(payload, 0))
}

/// Appends an identifier to `bytes`.
fn push_id(bytes: &mut Vec<u8>, id: &[u8; 32])
    ensures
        final(bytes)@ == old(bytes)@ + id@,
{
    let mut i: usize = 0;
    while i < 32
        invariant
            i <= 32,
            bytes@ == old(bytes)@ + id@.subrange(0, i as int),
        decreases 32 - i,
    {
        bytes.push(id[i]);
        i += 1;
        assert(id@.subrange(0, i as int) =~= id@.subrange(0, i - 1).push(id@[i - 1]));
    }
    assert(id@.subrange(0, 32) =~= id@);
}

/// Appends an amount to `bytes`, least significant byte first.
fn push_amount(bytes: &mut Vec<u8>, amount: u64)
    ensures
        final(bytes)@ == old(bytes)@ + le_bytes(amount as nat),
{
    bytes.push((amount % 0x100) as u8);
    bytes.push((amount / 0x100 % 0x100) as u8);
    bytes.push((amount / 0x1_0000 % 0x100) as u8);
    bytes.push((amount / 0x100_0000 % 0x100) as u8);
    bytes.push((amount / 0x1_0000_0000 % 0x100) as u8);
    bytes.push((amount / 0x100_0000_0000 % 0x100) as u8);
    bytes.push((amount / 0x1_0000_0000_0000 % 0x100) as u8);
    bytes.push((amount / 0x100_0000_0000_0000 % 0x100) as u8);
    assert(bytes@ =~= old(bytes)@ + le_bytes(amount as nat));
}

/// Writes a record out as a fresh buffer of [`RECORD_LEN`] bytes.
pub fn encode(record: &StoreRecord) -> (bytes: Vec<u8>)
    ensures
        bytes@ == encoded(record@),
        bytes@.len() == RECORD_LEN,
{
    let mut bytes: Vec<u8> = Vec::with_capacity(RECORD_LEN);
    let flag: u8 = match record.state {
        RecordState::Uninitialized => 0,
        RecordState::Initialized => 1,
    };
    bytes.push(flag);
    push_id(&mut bytes, &record.asset_id);
    push_id(&mut bytes, &record.owner_id);
    push_amount(&mut bytes, record.price);
    assert(bytes@ =~= encoded(record@));
    bytes
}

/// Writes a record over the first [`RECORD_LEN`] bytes of `buffer`.
///
/// The buffer keeps its length, and the bytes after the record stay as they
/// were. A buffer too short for a record is left untouched.
pub fn encode_into(record: &StoreRecord, buffer: &mut Vec<u8>) -> (result: Result<(), CoreError>)
    ensures
        old(buffer)@.len() < RECORD_LEN ==> result == Err::<(), CoreError>(
            CoreError::Decode(DecodeError::BufferTooSmall),
        ) && final(buffer)@ == old(buffer)@,
        old(buffer)@.len() >= RECORD_LEN ==> result is Ok && final(buffer)@ == written(
            old(buffer)@,
            record@,
        ),
{
    if buffer.len() < RECORD_LEN {
        return Err(CoreError::Decode(DecodeError::BufferTooSmall));
    }
    let bytes = encode(record);
    let mut i: usize = 0;
    while i < RECORD_LEN
        invariant
            i <= RECORD_LEN,
            bytes@ == encoded(record@),
            bytes@.len() == RECORD_LEN,
            buffer@.len() == old(buffer)@.len(),
            buffer@.len() >= RECORD_LEN,
            forall|j: int| 0 <= j < i ==> buffer@[j] == bytes@[j],
            forall|j: int| i <= j < buffer@.len() ==> buffer@[j] == old(buffer)@[j],
        decreases RECORD_LEN - i,
    {
        buffer[i] = bytes[i];
        i += 1;
    }
    assert(buffer@ =~= encoded(record@) + old(buffer)@.skip(RECORD_LEN as int));
    Ok(())
}

/// Eight bytes written for a value spell that value again.
pub proof fn lemma_le_value_of_bytes(value: nat)
    requires
        value <= u64::MAX,
    ensures
        le_bytes(value).len() == AMOUNT_LEN,
        le_value(le_bytes(value)) == value,
{
    let q1 = value / 0x100;
    let q2 = value / 0x1_0000;
    let q3 = value / 0x100_0000;
    let q4 = value / 0x1_0000_0000;
    let q5 = value / 0x100_0000_0000;
    let q6 = value / 0x1_0000_0000_0000;
    let q7 = value / 0x100_0000_0000_0000;
    assert(q2 == q1 / 0x100);
    assert(q3 == q2 / 0x100);
    assert(q4 == q3 / 0x100);
    assert(q5 == q4 / 0x100);
    assert(q6 == q5 / 0x100);
    assert(q7 == q6 / 0x100);
    assert(q7 < 0x100);
    assert(value == value % 0x100 + 0x100 * q1);
    assert(q1 == q1 % 0x100 + 0x100 * q2);
    assert(q2 == q2 % 0x100 + 0x100 * q3);
    assert(q3 == q3 % 0x100 + 0x100 * q4);
    assert(q4 == q4 % 0x100 + 0x100 * q5);
    assert(q5 == q5 % 0x100 + 0x100 * q6);
    assert(q6 == q6 % 0x100 + 0x100 * q7);
}

/// Decoding what was encoded gives the record back, whatever the record holds.
pub proof fn lemma_round_trip(record: StoreRecord)
    ensures
        encoded(record@).len() == RECORD_LEN,
        decoded(encoded(record@)) == record@,
{
    let m = record@;
    let bytes = encoded(m);
    lemma_le_value_of_bytes(m.price);
    assert(bytes.subrange(ASSET_OFFSET as int, OWNER_OFFSET as int) =~= m.asset_id);
    assert(bytes.subrange(OWNER_OFFSET as int, PRICE_OFFSET as int) =~= m.owner_id);
    assert(bytes.subrange(PRICE_OFFSET as int, RECORD_LEN as int) =~= le_bytes(m.price));
}

/// Writing a record over the start of a slot yields a slot that reads back
/// as that record.
pub proof fn lemma_written_reads_back(slot: Seq<u8>, record: StoreRecord)
    ensures
        written(slot, record@).len() == RECORD_LEN + slot.skip(RECORD_LEN as int).len(),
        decoded(written(slot, record@)) == record@,
{
    lemma_round_trip(record);
    let bytes = encoded(record@);
    let after = written(slot, record@);
    assert(after.subrange(1, 33) =~= bytes.subrange(1, 33));
    assert(after.subrange(33, 65) =~= bytes.subrange(33, 65));
    assert(after.subrange(65, 73) =~= bytes.subrange(65, 73));
    assert(after[0] == bytes[0]);
}

} // verus!
