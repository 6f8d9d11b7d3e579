//! The four operations on a store.
//!
//! Each operation checks its preconditions in a fixed order and stops at the
//! first that fails, so the error names the earliest violation. An operation
//! that fails changes nothing.

use vstd::prelude::*;
use crate::account::{AccountModel, AccountRef};
use crate::codec::{
    decode, decode_amount, decoded, encode_into, le_value, lemma_written_reads_back, same_id,
    written, RecordModel, RecordState, StoreRecord, AMOUNT_LEN, ID_LEN, RECORD_LEN,
};
use crate::error::{CoreError, DecodeError};
use crate::ledger::{
    asset_ledger_id, asset_ledger_program, asset_transfer, asset_transfer_call, ledger_error,
    native_transfer, native_transfer_call, LedgerCall, LedgerCallModel,
};

verus! {

/// The price every store starts with.
pub const INITIAL_PRICE: u64 = 1000;

/// The record a store is created with.
pub open spec fn created(asset: Seq<u8>, owner: Seq<u8>) -> RecordModel {
    RecordModel {
        state: RecordState::Initialized,
        asset_id: asset,
        owner_id: owner,
        price: INITIAL_PRICE as nat,
    }
}

/// `record` with its price replaced.
pub open spec fn repriced(record: RecordModel, price: nat) -> RecordModel {
    RecordModel { price, ..record }
}

/// Whether a store may be created in `slot`: the slot must have room for a
/// record and must not hold an initialized one.
pub open spec fn create_check(slot: Seq<u8>) -> Result<(), CoreError> {
    if slot.len() < RECORD_LEN {
        Err(CoreError::Decode(DecodeError::BufferTooSmall))
    } else if decoded(slot).state == RecordState::Initialized {
        Err(CoreError::AlreadyInitialized)
    } else {
        Ok(())
    }
}

/// Whether `caller` may set the price of the record in `slot` to what
/// `payload` spells.
pub open spec fn reprice_check(slot: Seq<u8>, caller: Seq<u8>, payload: Seq<u8>) -> Result<
    (),
    CoreError,
> {
    if payload.len() != AMOUNT_LEN {
        Err(CoreError::Decode(DecodeError::BadPayloadLength))
    } else if slot.len() < RECORD_LEN {
        Err(CoreError::Decode(DecodeError::BufferTooSmall))
    } else if decoded(slot).owner_id != caller {
        Err(CoreError::Unauthorized)
    } else {
        Ok(())
    }
}

/// Whether `record` admits a trade: it must have a price, the seller-side
/// account must be controlled by the asset ledger and be the asset the store
/// trades, `authorizer` must be the identity the trade expects, and `offer`
/// must reach the price.
pub open spec fn offer_check(
    record: RecordModel,
    seller: AccountModel,
    expected: Seq<u8>,
    authorizer: Seq<u8>,
    offer: nat,
) -> Result<(), CoreError> {
    if record.price == 0 {
        Err(CoreError::NoActiveOffer)
    } else if seller.owner != asset_ledger_id() {
        Err(CoreError::WrongLedgerOwner)
    } else if seller.key != record.asset_id {
        Err(CoreError::AssetMismatch)
    } else if expected != authorizer {
        Err(CoreError::Unauthorized)
    } else if offer < record.price {
        Err(CoreError::InsufficientPayment)
    } else {
        Ok(())
    }
}

/// Whether a trade against the record in `slot` may go ahead: the payload
/// must be an amount, the slot must hold a record, and the record must admit
/// the offer.
///
/// The two trades differ only in the identity that `authorizer` must match:
/// the store's own address when selling, the record's owner when buying.
pub open spec fn trade_check(
    slot: Seq<u8>,
    seller: AccountModel,
    expected: Seq<u8>,
    authorizer: Seq<u8>,
    payload: Seq<u8>,
) -> Result<(), CoreError> {
    if payload.len() != AMOUNT_LEN {
        Err(CoreError::Decode(DecodeError::BadPayloadLength))
    } else if slot.len() < RECORD_LEN {
        Err(CoreError::Decode(DecodeError::BufferTooSmall))
    } else {
        offer_check(decoded(slot), seller, expected, authorizer, le_value(payload))
    }
}

/// What a sale comes to: the first failed precondition, or the asset-ledger
/// transfer of the record's price from the seller-side to the buyer-side
/// account, signed by the seller's authority.
pub open spec fn sell_outcome(
    store: AccountModel,
    seller: AccountModel,
    buyer: AccountModel,
    authority: AccountModel,
    payload: Seq<u8>,
) -> Result<LedgerCallModel, CoreError> {
    match trade_check(store.data, seller, store.key, authority.key, payload) {
        Err(e) => Err(e),
        Ok(()) => Ok(
            asset_transfer(seller.key, buyer.key, authority.key, decoded(store.data).price),
        ),
    }
}

/// What a purchase comes to: the first failed precondition, or the
/// native-currency transfer of the record's price from the buyer's authority
/// to the seller-side account.
pub open spec fn buy_outcome(
    store: AccountModel,
    seller: AccountModel,
    authority: AccountModel,
    payload: Seq<u8>,
) -> Result<LedgerCallModel, CoreError> {
    match trade_check(store.data, seller, decoded(store.data).owner_id, authority.key, payload) {
        Err(e) => Err(e),
        Ok(()) => Ok(native_transfer(authority.key, seller.key, decoded(store.data).price)),
    }
}

/// A result whose call, if there is one, stands for `model`'s.
pub open spec fn stands_for(
    result: Result<LedgerCall, CoreError>,
    model: Result<LedgerCallModel, CoreError>,
) -> bool {
    match result {
        Ok(call) => model == Ok::<LedgerCallModel, CoreError>(call@),
        Err(e) => model == Err::<LedgerCallModel, CoreError>(e),
    }
}

/// Creates the store in `store`, trading the asset that `token` is the
/// account of, on behalf of `owner`.
///
/// The slot must have room for a record and must not hold an initialized one.
/// The new record is initialized, names `token`'s address as its asset and
/// `owner`'s address as its owner, and asks [`INITIAL_PRICE`].
pub fn initialize_store(store: &mut AccountRef, token: &AccountRef, owner: &AccountRef) -> (result:
    Result<(), CoreError>)
    ensures
        result == create_check(old(store)@.data),
        final(store)@.key == old(store)@.key,
        final(store)@.owner == old(store)@.owner,
        result is Ok ==> final(store)@.data == written(
            old(store)@.data,
            created(token@.key, owner@.key),
        ),
        result is Ok ==> decoded(final(store)@.data) == created(token@.key, owner@.key),
        result is Err ==> final(store)@ == old(store)@,
{
    let current = match decode(store.data.as_slice()) {
        Ok(record) => record,
        Err(e) => {
            return Err(e);
        },
    };
    match current.state {
        RecordState::Initialized => {
            return Err(CoreError::AlreadyInitialized);
        },
        RecordState::Uninitialized => {},
    }
    let record = StoreRecord {
        state: RecordState::Initialized,
        asset_id: token.key,
        owner_id: owner.key,
        price: INITIAL_PRICE,
    };
    proof {
        lemma_written_reads_back(old(store)@.data, record);
    }
    match encode_into(&record, &mut store.data) {
        Ok(()) => Ok(()),
        Err(e) => Err(e),
    }
}

/// Sets the price of the store in `store` to the amount that `payload`
/// spells, on behalf of `owner`.
///
/// The payload must be exactly eight bytes and `owner`'s address must be the
/// record's owner. Any amount is accepted, zero included: a price of zero
/// takes the store off the market until it is priced again.
pub fn update_price(store: &mut AccountRef, owner: &AccountRef, payload: &[u8]) -> (result: Result<
    (),
    CoreError,
>)
    ensures
        result == reprice_check(old(store)@.data, owner@.key, payload@),
        final(store)@.key == old(store)@.key,
        final(store)@.owner == old(store)@.owner,
        result is Ok ==> final(store)@.data == written(
            old(store)@.data,
            repriced(decoded(old(store)@.data), le_value(payload@)),
        ),
        result is Ok ==> decoded(final(store)@.data) == repriced(
            decoded(old(store)@.data),
            le_value(payload@),
        ),
        result is Err ==> final(store)@ == old(store)@,
{
    let price = match decode_amount(payload) {
        Ok(amount) => amount,
        Err(e) => {
            return Err(e);
        },
    };
    let current = match decode(store.data.as_slice()) {
        Ok(record) => record,
        Err(e) => {
            return Err(e);
        },
    };
    if !same_id(&current.owner_id, &owner.key) {
        return Err(CoreError::Unauthorized);
    }
    let record = StoreRecord { price, ..current };
    proof {
        assert(record@ == repriced(decoded(old(store)@.data), le_value(payload@)));
        lemma_written_reads_back(old(store)@.data, record);
    }
    match encode_into(&record, &mut store.data) {
        Ok(()) => Ok(()),
        Err(e) => Err(e),
    }
}

/// Checks an offer against a record, in the order of [`offer_check`].
fn check_offer(
    record: &StoreRecord,
    seller: &AccountRef,
    expected: &[u8; 32],
    authorizer: &[u8; 32],
    offer: u64,
) -> (result: Result<(), CoreError>)
    ensures
        result == offer_check(record@, seller@, expected@, authorizer@, offer as nat),
{
    if record.price == 0 {
        return Err(CoreError::NoActiveOffer);
    }
    let ledger = asset_ledger_program();
    if !same_id(&seller.owner, &ledger) {
        return Err(CoreError::WrongLedgerOwner);
    }
    if !same_id(&seller.key, &record.asset_id) {
        return Err(CoreError::AssetMismatch);
    }
    if !same_id(expected, authorizer) {
        return Err(CoreError::Unauthorized);
    }
    if offer < record.price {
        return Err(CoreError::InsufficientPayment);
    }
    Ok(())
}

/// Sells from `seller_token` to `buyer_token` at the price of the store in
/// `store`, on the authority of `seller_owner`.
///
/// The preconditions are checked in this order: the payload is exactly eight
/// bytes; the record has a price; `seller_token` is controlled by the asset
/// ledger; `seller_token` is the asset the store trades; `seller_owner` is
/// the store's own address; the amount the payload offers reaches the price.
/// The store is only read. On success the result is the one asset-ledger
/// transfer to dispatch, of exactly the record's price.
pub fn sell(
    store: &AccountRef,
    seller_token: &AccountRef,
    buyer_token: &AccountRef,
    seller_owner: &AccountRef,
    payload: &[u8],
) -> (result: Result<LedgerCall, CoreError>)
    ensures
        stands_for(result, sell_outcome(store@, seller_token@, buyer_token@, seller_owner@, payload@)),
{
    let offer = match decode_amount(payload) {
        Ok(amount) => amount,
        Err(e) => {
            return Err(e);
        },
    };
    let record = match decode(store.data.as_slice()) {
        Ok(record) => record,
        Err(e) => {
            return Err(e);
        },
    };
    match check_offer(&record, seller_token, &store.key, &seller_owner.key, offer) {
        Ok(()) => {},
        Err(e) => {
            return Err(e);
        },
    }
    let ledger = asset_ledger_program();
    match asset_transfer_call(
        &ledger,
        &seller_token.key,
        &buyer_token.key,
        &seller_owner.key,
        record.price,
    ) {
        Ok(call) => Ok(call),
        Err(e) => Err(CoreError::Ledger(ledger_error(e))),
    }
}

/// Buys from the store in `store` at its price, paid in native currency by
/// `buyer_owner` to `seller_token`.
///
/// The preconditions are checked in this order: the payload is exactly eight
/// bytes; the record has a price; `seller_token` is controlled by the asset
/// ledger; `seller_token` is the asset the store trades; `buyer_owner` is the
/// record's owner; the amount the payload offers reaches the price. The store
/// is only read. On success the result is the one native-currency transfer to
/// dispatch, of exactly the record's price. `buyer_token` and
/// `system_program` take part in the dispatch only.
#[allow(unused_variables)]
pub fn buy(
    store: &AccountRef,
    seller_token: &AccountRef,
    buyer_token: &AccountRef,
    buyer_owner: &AccountRef,
    system_program: &AccountRef,
    payload: &[u8],
) -> (result: Result<LedgerCall, CoreError>)
    ensures
        stands_for(result, buy_outcome(store@, seller_token@, buyer_owner@, payload@)),
{
    let offer = match decode_amount(payload) {
        Ok(amount) => amount,
        Err(e) => {
            return Err(e);
        },
    };
    let record = match decode(store.data.as_slice()) {
        Ok(record) => record,
        Err(e) => {
            return Err(e);
        },
    };
    match check_offer(&record, seller_token, &record.owner_id, &buyer_owner.key, offer) {
        Ok(()) => {},
        Err(e) => {
            return Err(e);
        },
    }
    Ok(native_transfer_call(&buyer_owner.key, &seller_token.key, record.price))
}

/// A store is created once: in a slot where creation went through, a second
/// creation is refused as already initialized, whoever asks for it.
pub proof fn lemma_create_once(slot: Seq<u8>, asset: Seq<u8>, owner: Seq<u8>)
    requires
        create_check(slot) is Ok,
        asset.len() == ID_LEN,
        owner.len() == ID_LEN,
    ensures
        create_check(written(slot, created(asset, owner))) == Err::<(), CoreError>(
            CoreError::AlreadyInitialized,
        ),
{
    let after = written(slot, created(asset, owner));
    assert(after[0] == 1);
}

/// The owner, and nobody else, may reprice: against a slot that holds a
/// record, an eight-byte payload is accepted from the record's owner and
/// refused as unauthorized from every other identity.
pub proof fn lemma_reprice_is_the_owners(slot: Seq<u8>, caller: Seq<u8>, payload: Seq<u8>)
    requires
        slot.len() >= RECORD_LEN,
        payload.len() == AMOUNT_LEN,
    ensures
        caller == decoded(slot).owner_id ==> reprice_check(slot, caller, payload) is Ok,
        caller != decoded(slot).owner_id ==> reprice_check(slot, caller, payload) == Err::<
            (),
            CoreError,
        >(CoreError::Unauthorized),
{
}

/// A record without a price sells nothing: once the payload is an amount and
/// the slot holds a record, a price of zero refuses the sale as having no
/// active offer, whatever the accounts and the offer are.
pub proof fn lemma_sell_needs_a_price(
    store: AccountModel,
    seller: AccountModel,
    buyer: AccountModel,
    authority: AccountModel,
    payload: Seq<u8>,
)
    requires
        payload.len() == AMOUNT_LEN,
        store.data.len() >= RECORD_LEN,
        decoded(store.data).price == 0,
    ensures
        sell_outcome(store, seller, buyer, authority, payload) == Err::<
            LedgerCallModel,
            CoreError,
        >(CoreError::NoActiveOffer),
{
}

/// The price is the boundary of a sale: where every other precondition
/// holds, an offer below the price is refused as insufficient, and an offer
/// that reaches it yields the asset-ledger transfer of exactly the price.
pub proof fn lemma_sell_boundary(
    store: AccountModel,
    seller: AccountModel,
    buyer: AccountModel,
    authority: AccountModel,
    payload: Seq<u8>,
)
    requires
        payload.len() == AMOUNT_LEN,
        store.data.len() >= RECORD_LEN,
        decoded(store.data).price != 0,
        seller.owner == asset_ledger_id(),
        seller.key == decoded(store.data).asset_id,
        authority.key == store.key,
    ensures
        le_value(payload) < decoded(store.data).price ==> sell_outcome(
            store,
            seller,
            buyer,
            authority,
            payload,
        ) == Err::<LedgerCallModel, CoreError>(CoreError::InsufficientPayment),
        le_value(payload) >= decoded(store.data).price ==> sell_outcome(
            store,
            seller,
            buyer,
            authority,
            payload,
        ) == Ok::<LedgerCallModel, CoreError>(
            asset_transfer(seller.key, buyer.key, authority.key, decoded(store.data).price),
        ),
{
}

/// Only the record's owner buys: a purchase authorized by any other identity
/// yields no transfer, and where the payload, the record and the seller-side
/// account pass their checks it is refused as unauthorized.
pub proof fn lemma_buy_is_the_owners(
    store: AccountModel,
    seller: AccountModel,
    authority: AccountModel,
    payload: Seq<u8>,
)
    requires
        authority.key != decoded(store.data).owner_id,
    ensures
        buy_outcome(store, seller, authority, payload) is Err,
        payload.len() == AMOUNT_LEN && store.data.len() >= RECORD_LEN && decoded(store.data).price
            != 0 && seller.owner == asset_ledger_id() && seller.key == decoded(
            store.data,
        ).asset_id ==> buy_outcome(store, seller, authority, payload) == Err::<
            LedgerCallModel,
            CoreError,
        >(CoreError::Unauthorized),
{
}

} // verus!
