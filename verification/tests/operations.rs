use sfxdx::account::AccountRef;
use sfxdx::codec::{decode, encode, RecordState, StoreRecord};
use sfxdx::error::{CoreError, DecodeError};
use sfxdx::ledger::{CallAccount, LedgerCall};
use sfxdx::ops::{buy, initialize_store, sell, update_price, INITIAL_PRICE};
use solana_program::pubkey::Pubkey;

const STORE: [u8; 32] = [1; 32];
const ASSET: [u8; 32] = [2; 32];
const BUYER_ASSET: [u8; 32] = [3; 32];
const OWNER: [u8; 32] = [4; 32];
const STRANGER: [u8; 32] = [5; 32];
const PROGRAM: [u8; 32] = [6; 32];

fn token_program() -> [u8; 32] {
    spl_token::id().to_bytes()
}

fn account(key: [u8; 32], owner: [u8; 32], data: Vec<u8>) -> AccountRef {
    AccountRef { key, owner, data }
}

fn wallet(key: [u8; 32]) -> AccountRef {
    account(key, [0; 32], Vec::new())
}

fn token_account(key: [u8; 32]) -> AccountRef {
    account(key, token_program(), vec![0; 165])
}

fn empty_store() -> AccountRef {
    account(STORE, PROGRAM, vec![0; 73])
}

fn store_with(price: u64) -> AccountRef {
    let record = StoreRecord {
        state: RecordState::Initialized,
        asset_id: ASSET,
        owner_id: OWNER,
        price,
    };
    account(STORE, PROGRAM, encode(&record))
}

fn metas(call: &LedgerCall) -> Vec<([u8; 32], bool, bool)> {
    call.accounts.iter().map(|a: &CallAccount| (a.key, a.is_signer, a.is_writable)).collect()
}

#[test]
fn create_writes_the_initial_record() {
    let mut store = empty_store();
    let result = initialize_store(&mut store, &token_account(ASSET), &wallet(OWNER));
    assert_eq!(result, Ok(()));
    let record = decode(&store.data).unwrap();
    assert_eq!(record.state, RecordState::Initialized);
    assert_eq!(record.asset_id, ASSET);
    assert_eq!(record.owner_id, OWNER);
    assert_eq!(record.price, 1000);
    assert_eq!(INITIAL_PRICE, 1000);
    assert_eq!(store.key, STORE);
    assert_eq!(store.owner, PROGRAM);
}

#[test]
fn create_writes_exact_bytes_and_keeps_the_tail() {
    let mut store = account(STORE, PROGRAM, vec![0; 80]);
    store.data[73..].copy_from_slice(&[9; 7]);
    assert_eq!(initialize_store(&mut store, &token_account(ASSET), &wallet(OWNER)), Ok(()));
    let mut expected = vec![1u8];
    expected.extend_from_slice(&ASSET);
    expected.extend_from_slice(&OWNER);
    expected.extend_from_slice(&1000u64.to_le_bytes());
    expected.extend_from_slice(&[9; 7]);
    assert_eq!(store.data, expected);
}

#[test]
fn create_twice_is_refused() {
    let mut store = empty_store();
    assert_eq!(initialize_store(&mut store, &token_account(ASSET), &wallet(OWNER)), Ok(()));
    let after_first = store.data.clone();
    let second = initialize_store(&mut store, &token_account(BUYER_ASSET), &wallet(STRANGER));
    assert_eq!(second, Err(CoreError::AlreadyInitialized));
    assert_eq!(store.data, after_first);
}

#[test]
fn create_over_any_nonzero_flag_is_refused() {
    let mut store = empty_store();
    store.data[0] = 2;
    let before = store.data.clone();
    let result = initialize_store(&mut store, &token_account(ASSET), &wallet(OWNER));
    assert_eq!(result, Err(CoreError::AlreadyInitialized));
    assert_eq!(store.data, before);
}

#[test]
fn create_in_a_short_slot_is_refused() {
    let mut store = account(STORE, PROGRAM, vec![0; 72]);
    let result = initialize_store(&mut store, &token_account(ASSET), &wallet(OWNER));
    assert_eq!(result, Err(CoreError::Decode(DecodeError::BufferTooSmall)));
    assert_eq!(store.data, vec![0; 72]);
}

#[test]
fn create_ignores_what_the_slot_held_besides_the_flag() {
    let mut store = account(STORE, PROGRAM, vec![0xee; 73]);
    store.data[0] = 0;
    assert_eq!(initialize_store(&mut store, &token_account(ASSET), &wallet(OWNER)), Ok(()));
    let record = decode(&store.data).unwrap();
    assert_eq!(record.asset_id, ASSET);
    assert_eq!(record.owner_id, OWNER);
    assert_eq!(record.price, 1000);
}

#[test]
fn reprice_by_the_owner() {
    let mut store = store_with(1000);
    let result = update_price(&mut store, &wallet(OWNER), &2000u64.to_le_bytes());
    assert_eq!(result, Ok(()));
    let record = decode(&store.data).unwrap();
    assert_eq!(record.price, 2000);
    assert_eq!(record.state, RecordState::Initialized);
    assert_eq!(record.asset_id, ASSET);
    assert_eq!(record.owner_id, OWNER);
}

#[test]
fn reprice_from_any_price() {
    for old in [0u64, 1, 1000, u64::MAX] {
        let mut store = store_with(old);
        assert_eq!(update_price(&mut store, &wallet(OWNER), &2000u64.to_le_bytes()), Ok(()));
        assert_eq!(decode(&store.data).unwrap().price, 2000);
    }
}

#[test]
fn reprice_by_a_stranger_is_refused() {
    let mut store = store_with(1000);
    let before = store.data.clone();
    let result = update_price(&mut store, &wallet(STRANGER), &2000u64.to_le_bytes());
    assert_eq!(result, Err(CoreError::Unauthorized));
    assert_eq!(store.data, before);
    assert_eq!(decode(&store.data).unwrap().price, 1000);
}

#[test]
fn reprice_by_an_identity_one_bit_off_is_refused() {
    let mut almost = OWNER;
    almost[31] ^= 0x80;
    let mut store = store_with(1000);
    assert_eq!(
        update_price(&mut store, &wallet(almost), &2000u64.to_le_bytes()),
        Err(CoreError::Unauthorized)
    );
    assert_eq!(decode(&store.data).unwrap().price, 1000);
}

#[test]
fn reprice_wants_eight_bytes() {
    for payload in [&[][..], &[1, 2, 3, 4, 5, 6, 7][..], &[0; 9][..]] {
        let mut store = store_with(1000);
        let before = store.data.clone();
        assert_eq!(
            update_price(&mut store, &wallet(OWNER), payload),
            Err(CoreError::Decode(DecodeError::BadPayloadLength))
        );
        assert_eq!(store.data, before);
    }
}

#[test]
fn reprice_checks_the_payload_before_the_caller() {
    let mut store = store_with(1000);
    assert_eq!(
        update_price(&mut store, &wallet(STRANGER), &[0; 3]),
        Err(CoreError::Decode(DecodeError::BadPayloadLength))
    );
}

#[test]
fn reprice_in_a_short_slot_is_refused() {
    let mut store = account(STORE, PROGRAM, vec![1; 10]);
    assert_eq!(
        update_price(&mut store, &wallet(OWNER), &[0; 8]),
        Err(CoreError::Decode(DecodeError::BufferTooSmall))
    );
    assert_eq!(store.data, vec![1; 10]);
}

#[test]
fn reprice_to_zero_takes_the_store_off_the_market() {
    let mut store = store_with(1000);
    assert_eq!(update_price(&mut store, &wallet(OWNER), &[0; 8]), Ok(()));
    assert_eq!(decode(&store.data).unwrap().price, 0);
    let sale = sell(
        &store,
        &token_account(ASSET),
        &token_account(BUYER_ASSET),
        &wallet(STORE),
        &1000u64.to_le_bytes(),
    );
    assert_eq!(sale.err(), Some(CoreError::NoActiveOffer));
    assert_eq!(update_price(&mut store, &wallet(OWNER), &7u64.to_le_bytes()), Ok(()));
    let sale = sell(
        &store,
        &token_account(ASSET),
        &token_account(BUYER_ASSET),
        &wallet(STORE),
        &7u64.to_le_bytes(),
    );
    assert!(sale.is_ok());
}

#[test]
fn reprice_keeps_the_tail_of_the_buffer() {
    let mut store = store_with(1000);
    store.data.extend_from_slice(&[7; 20]);
    assert_eq!(update_price(&mut store, &wallet(OWNER), &u64::MAX.to_le_bytes()), Ok(()));
    assert_eq!(store.data.len(), 93);
    assert_eq!(&store.data[65..73], &[0xff; 8]);
    assert_eq!(&store.data[73..], &[7; 20]);
}

#[test]
fn sell_without_a_price_is_refused() {
    let store = store_with(0);
    for offer in [0u64, 1, u64::MAX] {
        let result = sell(
            &store,
            &wallet(STRANGER),
            &wallet(STRANGER),
            &wallet(STRANGER),
            &offer.to_le_bytes(),
        );
        assert_eq!(result.err(), Some(CoreError::NoActiveOffer));
    }
}

#[test]
fn sell_one_below_the_price_is_refused() {
    let store = store_with(1000);
    let result = sell(
        &store,
        &token_account(ASSET),
        &token_account(BUYER_ASSET),
        &wallet(STORE),
        &999u64.to_le_bytes(),
    );
    assert_eq!(result.err(), Some(CoreError::InsufficientPayment));
}

#[test]
fn sell_at_the_price_asks_for_one_asset_transfer() {
    let store = store_with(1000);
    let call = sell(
        &store,
        &token_account(ASSET),
        &token_account(BUYER_ASSET),
        &wallet(STORE),
        &1000u64.to_le_bytes(),
    )
    .unwrap();
    assert_eq!(call.program_id, token_program());
    assert_eq!(
        metas(&call),
        vec![(ASSET, false, true), (BUYER_ASSET, false, true), (STORE, true, false)]
    );
    assert_eq!(call.data, vec![3, 0xe8, 0x03, 0, 0, 0, 0, 0, 0]);
}

#[test]
fn sell_call_is_the_token_programs_own_transfer() {
    let store = store_with(123_456_789_012);
    let call = sell(
        &store,
        &token_account(ASSET),
        &token_account(BUYER_ASSET),
        &wallet(STORE),
        &u64::MAX.to_le_bytes(),
    )
    .unwrap();
    let expected = spl_token::instruction::transfer(
        &spl_token::id(),
        &Pubkey::new_from_array(ASSET),
        &Pubkey::new_from_array(BUYER_ASSET),
        &Pubkey::new_from_array(STORE),
        &[],
        123_456_789_012,
    )
    .unwrap();
    assert_eq!(call.program_id, expected.program_id.to_bytes());
    assert_eq!(call.data, expected.data);
    assert_eq!(call.accounts.len(), expected.accounts.len());
    for (ours, theirs) in call.accounts.iter().zip(expected.accounts.iter()) {
        assert_eq!(ours.key, theirs.pubkey.to_bytes());
        assert_eq!(ours.is_signer, theirs.is_signer);
        assert_eq!(ours.is_writable, theirs.is_writable);
    }
}

#[test]
fn sell_above_the_price_moves_the_price() {
    let store = store_with(1000);
    let call = sell(
        &store,
        &token_account(ASSET),
        &token_account(BUYER_ASSET),
        &wallet(STORE),
        &5000u64.to_le_bytes(),
    )
    .unwrap();
    assert_eq!(call.data, vec![3, 0xe8, 0x03, 0, 0, 0, 0, 0, 0]);
}

#[test]
fn sell_leaves_the_store_as_it_was() {
    let store = store_with(1000);
    let before = store.data.clone();
    let _ = sell(
        &store,
        &token_account(ASSET),
        &token_account(BUYER_ASSET),
        &wallet(STORE),
        &1000u64.to_le_bytes(),
    );
    assert_eq!(store.data, before);
}

#[test]
fn sell_from_an_account_of_another_program_is_refused() {
    let store = store_with(1000);
    let result = sell(
        &store,
        &account(ASSET, PROGRAM, Vec::new()),
        &token_account(BUYER_ASSET),
        &wallet(STORE),
        &1000u64.to_le_bytes(),
    );
    assert_eq!(result.err(), Some(CoreError::WrongLedgerOwner));
}

#[test]
fn sell_of_another_asset_is_refused() {
    let store = store_with(1000);
    let result = sell(
        &store,
        &token_account(BUYER_ASSET),
        &token_account(BUYER_ASSET),
        &wallet(STORE),
        &1000u64.to_le_bytes(),
    );
    assert_eq!(result.err(), Some(CoreError::AssetMismatch));
}

#[test]
fn sell_is_authorized_by_the_stores_own_address() {
    let store = store_with(1000);
    let by_owner = sell(
        &store,
        &token_account(ASSET),
        &token_account(BUYER_ASSET),
        &wallet(OWNER),
        &1000u64.to_le_bytes(),
    );
    assert_eq!(by_owner.err(), Some(CoreError::Unauthorized));
    let by_store = sell(
        &store,
        &token_account(ASSET),
        &token_account(BUYER_ASSET),
        &wallet(STORE),
        &1000u64.to_le_bytes(),
    );
    assert!(by_store.is_ok());
}

#[test]
fn sell_wants_eight_bytes() {
    let store = store_with(0);
    for payload in [&[][..], &[0; 7][..], &[0; 9][..]] {
        let result = sell(&store, &wallet(STRANGER), &wallet(STRANGER), &wallet(STRANGER), payload);
        assert_eq!(result.err(), Some(CoreError::Decode(DecodeError::BadPayloadLength)));
    }
}

#[test]
fn sell_against_a_short_slot_is_refused() {
    let store = account(STORE, PROGRAM, vec![1; 72]);
    let result = sell(
        &store,
        &token_account(ASSET),
        &token_account(BUYER_ASSET),
        &wallet(STORE),
        &[0; 8],
    );
    assert_eq!(result.err(), Some(CoreError::Decode(DecodeError::BufferTooSmall)));
}

#[test]
fn sell_checks_in_order() {
    let store = store_with(1000);
    // Wrong program, wrong asset, wrong authority and a low offer: the program comes first.
    let result = sell(
        &store,
        &account(BUYER_ASSET, PROGRAM, Vec::new()),
        &token_account(BUYER_ASSET),
        &wallet(OWNER),
        &1u64.to_le_bytes(),
    );
    assert_eq!(result.err(), Some(CoreError::WrongLedgerOwner));
    // Wrong asset, wrong authority and a low offer: the asset comes first.
    let result = sell(
        &store,
        &token_account(BUYER_ASSET),
        &token_account(BUYER_ASSET),
        &wallet(OWNER),
        &1u64.to_le_bytes(),
    );
    assert_eq!(result.err(), Some(CoreError::AssetMismatch));
    // Wrong authority and a low offer: the authority comes first.
    let result = sell(
        &store,
        &token_account(ASSET),
        &token_account(BUYER_ASSET),
        &wallet(OWNER),
        &1u64.to_le_bytes(),
    );
    assert_eq!(result.err(), Some(CoreError::Unauthorized));
}

#[test]
fn buy_by_a_stranger_is_refused() {
    let store = store_with(1000);
    let result = buy(
        &store,
        &token_account(ASSET),
        &token_account(BUYER_ASSET),
        &wallet(STRANGER),
        &wallet([0; 32]),
        &1000u64.to_le_bytes(),
    );
    assert_eq!(result.err(), Some(CoreError::Unauthorized));
}

#[test]
fn buy_by_the_stores_own_address_is_refused() {
    let store = store_with(1000);
    let result = buy(
        &store,
        &token_account(ASSET),
        &token_account(BUYER_ASSET),
        &wallet(STORE),
        &wallet([0; 32]),
        &1000u64.to_le_bytes(),
    );
    assert_eq!(result.err(), Some(CoreError::Unauthorized));
}

#[test]
fn buy_at_the_price_asks_for_one_native_transfer() {
    let store = store_with(1000);
    let call = buy(
        &store,
        &token_account(ASSET),
        &token_account(BUYER_ASSET),
        &wallet(OWNER),
        &wallet([0; 32]),
        &1000u64.to_le_bytes(),
    )
    .unwrap();
    assert_eq!(call.program_id, [0u8; 32]);
    assert_eq!(metas(&call), vec![(OWNER, true, true), (ASSET, false, true)]);
    assert_eq!(call.data, vec![2, 0, 0, 0, 0xe8, 0x03, 0, 0, 0, 0, 0, 0]);
}

#[test]
fn buy_call_is_the_system_programs_own_transfer() {
    let store = store_with(0xfedc_ba98_7654_3210);
    let call = buy(
        &store,
        &token_account(ASSET),
        &token_account(BUYER_ASSET),
        &wallet(OWNER),
        &wallet([0; 32]),
        &u64::MAX.to_le_bytes(),
    )
    .unwrap();
    #[allow(deprecated)]
    let expected = solana_program::system_instruction::transfer(
        &Pubkey::new_from_array(OWNER),
        &Pubkey::new_from_array(ASSET),
        0xfedc_ba98_7654_3210,
    );
    assert_eq!(call.program_id, expected.program_id.to_bytes());
    assert_eq!(call.data, expected.data);
    assert_eq!(call.accounts.len(), expected.accounts.len());
    for (ours, theirs) in call.accounts.iter().zip(expected.accounts.iter()) {
        assert_eq!(ours.key, theirs.pubkey.to_bytes());
        assert_eq!(ours.is_signer, theirs.is_signer);
        assert_eq!(ours.is_writable, theirs.is_writable);
    }
}

#[test]
fn buy_below_the_price_is_refused() {
    let store = store_with(1000);
    let result = buy(
        &store,
        &token_account(ASSET),
        &token_account(BUYER_ASSET),
        &wallet(OWNER),
        &wallet([0; 32]),
        &999u64.to_le_bytes(),
    );
    assert_eq!(result.err(), Some(CoreError::InsufficientPayment));
}

#[test]
fn buy_without_a_price_is_refused() {
    let store = store_with(0);
    let result = buy(
        &store,
        &token_account(ASSET),
        &token_account(BUYER_ASSET),
        &wallet(OWNER),
        &wallet([0; 32]),
        &0u64.to_le_bytes(),
    );
    assert_eq!(result.err(), Some(CoreError::NoActiveOffer));
}

#[test]
fn buy_checks_the_seller_side_before_the_buyer() {
    let store = store_with(1000);
    let result = buy(
        &store,
        &account(ASSET, PROGRAM, Vec::new()),
        &token_account(BUYER_ASSET),
        &wallet(STRANGER),
        &wallet([0; 32]),
        &1000u64.to_le_bytes(),
    );
    assert_eq!(result.err(), Some(CoreError::WrongLedgerOwner));
    let result = buy(
        &store,
        &token_account(BUYER_ASSET),
        &token_account(BUYER_ASSET),
        &wallet(STRANGER),
        &wallet([0; 32]),
        &1000u64.to_le_bytes(),
    );
    assert_eq!(result.err(), Some(CoreError::AssetMismatch));
}

#[test]
fn buy_wants_eight_bytes() {
    let store = store_with(1000);
    let result = buy(
        &store,
        &token_account(ASSET),
        &token_account(BUYER_ASSET),
        &wallet(OWNER),
        &wallet([0; 32]),
        &[0; 4],
    );
    assert_eq!(result.err(), Some(CoreError::Decode(DecodeError::BadPayloadLength)));
}

#[test]
fn the_asset_ledger_is_the_token_program() {
    let expected: [u8; 32] = [
        6, 221, 246, 225, 215, 101, 161, 147, 217, 203, 225, 70, 206, 235, 121, 172, 28, 180, 133,
        237, 95, 91, 55, 145, 58, 140, 245, 133, 126, 255, 0, 169,
    ];
    assert_eq!(token_program(), expected);
    let store = store_with(1);
    let call = sell(
        &store,
        &account(ASSET, expected, Vec::new()),
        &token_account(BUYER_ASSET),
        &wallet(STORE),
        &1u64.to_le_bytes(),
    )
    .unwrap();
    assert_eq!(call.program_id, expected);
    let mut near = expected;
    near[0] = 7;
    let result = sell(
        &store,
        &account(ASSET, near, Vec::new()),
        &token_account(BUYER_ASSET),
        &wallet(STORE),
        &1u64.to_le_bytes(),
    );
    assert_eq!(result.err(), Some(CoreError::WrongLedgerOwner));
}
