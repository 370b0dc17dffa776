//! Offer ledger and multi-step settlement core of an escrow protocol that
//! exchanges a bundle of non-fungible assets against a fungible payment.
//!
//! The ledger records a bounded set of pending offers against one listing;
//! an accepted offer is settled leg by leg through a resumable state
//! machine, so that payment and each asset move happen exactly once even
//! when the caller must retry. Executing the transfers themselves, and all
//! account storage, is the surrounding host's concern: every operation
//! here works on the plain record values and reports which transfers the
//! host has to perform.

use vstd::prelude::*;

pub mod account;
pub mod constant;
pub mod error;
pub mod settle;

use crate::account::{AccountRef, NftData, NftOnSale, OfferData, OfferItem, Pool};
use crate::constant::{BUY_MAX_NFT_COUNT, MAX_OFFER_COUNT};
use crate::error::NMError;

pub use crate::settle::buy_nft;
pub use crate::settle::BuyNftActions;

verus! {

/// Sets up the custody authority record with its owner and the bump byte
/// of its deterministic derivation.
pub fn initialize(owner: AccountRef, bump: u8) -> (pool: Pool)
    ensures
        pool.owner == owner,
        pool.bump == bump,
{
    Pool { owner, bump }
}

/// Sets up the offer ledger of a freshly created listing: empty but for
/// the custody authority it is attached to.
pub fn create_offerdata(pool: AccountRef) -> (offer_data: OfferData)
    ensures
        offer_data.pool == pool,
        offer_data.offer_item_count == 0,
        offer_data.pending() == Seq::<OfferItem>::empty(),
        offer_data.collection_id == 0,
        offer_data.nft_id == 0,
        offer_data.offeror == AccountRef::spec_zero(),
        offer_data.listed_price == 0,
        offer_data.floor_price == 0,
        forall|j: int|
            0 <= j < MAX_OFFER_COUNT as int ==> (
            #[trigger] offer_data.offer_items@[j]).offer_amount_sol == 0
                && offer_data.offer_items@[j].offer_nft_price == 0
                && offer_data.offer_items@[j].offer_nft_count == 0 && (forall|k: int|
                0 <= k < BUY_MAX_NFT_COUNT as int ==> (
                #[trigger] offer_data.offer_items@[j].offer_nft_mint@[k])
                    == AccountRef::spec_zero() && offer_data.offer_items@[j].offer_nft_account@[k]
                    == AccountRef::spec_zero()),
        offer_data.wf(),
{
    let mut offer_data = OfferData::default();
    offer_data.pool = pool;
    offer_data
}

/// Whether `add_offer` takes the offer: the ledger has a free slot, and
/// either the offer bundles at least one asset or its payment alone
/// clears the floor price.
pub open spec fn offer_takeable(
    offer_data: OfferData,
    offer_amount_sol: u64,
    floor_price: u64,
    offer_nft_count: u8,
) -> bool {
    &&& (offer_data.offer_item_count as int) < MAX_OFFER_COUNT as int
    &&& (offer_nft_count != 0 || offer_amount_sol >= floor_price)
}

/// Submits one buyer's bundled offer against the listing.
///
/// A full ledger, or a payment-only offer under the floor price, is
/// silently ignored: try-add semantics, not an error. An offer that
/// bundles at least one asset bypasses the floor-price check. A taken
/// offer is appended, and the shared listing context — offeror, custody
/// authority, catalog entry and prices — is re-stamped from this call,
/// so the ledger always reflects the latest taken offer's context.
pub fn add_offer(
    offer_data: &mut OfferData,
    offeror: AccountRef,
    pool: AccountRef,
    collection_id: u32,
    nft_id: u32,
    offer_amount_sol: u64,
    offer_nft_price: u64,
    listed_price: u64,
    floor_price: u64,
    offer_nft_mint: [AccountRef; BUY_MAX_NFT_COUNT],
    offer_nft_account: [AccountRef; BUY_MAX_NFT_COUNT],
    offer_nft_count: u8,
)
    requires
        old(offer_data).wf(),
        offer_nft_count as int <= BUY_MAX_NFT_COUNT as int,
    ensures
        ({
            let item = (OfferItem {
                offer_amount_sol,
                offer_nft_price,
                offer_nft_mint,
                offer_nft_account,
                offer_nft_count,
            });
            if offer_takeable(*old(offer_data), offer_amount_sol, floor_price, offer_nft_count) {
                &&& final(offer_data).collection_id == collection_id
                &&& final(offer_data).nft_id == nft_id
                &&& final(offer_data).offeror == offeror
                &&& final(offer_data).pool == pool
                &&& final(offer_data).listed_price == listed_price
                &&& final(offer_data).floor_price == floor_price
                &&& final(offer_data).offer_item_count == old(offer_data).offer_item_count + 1
                &&& final(offer_data).offer_items@ == old(offer_data).offer_items@.update(
                    old(offer_data).offer_item_count as int,
                    item,
                )
                &&& final(offer_data).pending() == old(offer_data).pending().push(item)
            } else {
                *final(offer_data) == *old(offer_data)
            }
        }),
        final(offer_data).wf(),
        final(offer_data).offer_item_count as int <= MAX_OFFER_COUNT as int,
{
    if (offer_data.offer_item_count as usize) < MAX_OFFER_COUNT {
        if offer_nft_count != 0 || offer_amount_sol >= floor_price {
            offer_data.collection_id = collection_id;
            offer_data.nft_id = nft_id;
            offer_data.offeror = offeror;
            offer_data.pool = pool;
            let offer_item = OfferItem {
                offer_amount_sol,
                offer_nft_price,
                offer_nft_mint,
                offer_nft_account,
                offer_nft_count,
            };
            offer_data.add_offer_item(offer_item);
            offer_data.listed_price = listed_price;
            offer_data.floor_price = floor_price;
        }
    }
}

/// Accepts the offer at `offer_index`, collapsing the ledger to that
/// single offer and discarding every other pending one: the hand-off
/// into settlement.
pub fn accept_offer(offer_data: &mut OfferData, offer_index: u8) -> (r: Result<(), NMError>)
    requires
        old(offer_data).wf(),
    ensures
        (r is Ok) <==> (offer_index as int) < old(offer_data).offer_item_count as int,
        r is Err ==> r == Result::<(), NMError>::Err(NMError::OverflowOfferCount) && *final(offer_data) == *old(offer_data),
        r is Ok ==> ({
            &&& final(offer_data).offer_item_count == 1
            &&& final(offer_data).offer_items@ == old(offer_data).offer_items@.update(
                0,
                old(offer_data).offer_items@[offer_index as int],
            )
            &&& final(offer_data).pending() == seq![
                old(offer_data).offer_items@[offer_index as int],
            ]
            &&& final(offer_data).collection_id == old(offer_data).collection_id
            &&& final(offer_data).nft_id == old(offer_data).nft_id
            &&& final(offer_data).offeror == old(offer_data).offeror
            &&& final(offer_data).pool == old(offer_data).pool
            &&& final(offer_data).listed_price == old(offer_data).listed_price
            &&& final(offer_data).floor_price == old(offer_data).floor_price
        }),
        final(offer_data).wf(),
{
    if !(offer_index < offer_data.offer_item_count) {
        return Err(NMError::OverflowOfferCount);
    }
    offer_data.accept_offer_item(offer_index);
    Ok(())
}

/// Rejects the offer at `offer_index`: listing-owner service. The slot is
/// compacted by moving the last pending offer into it, so each successful
/// call removes exactly one offer and the order of the rest may change.
pub fn reject_offer(offer_data: &mut OfferData, offer_index: u8) -> (r: Result<(), NMError>)
    requires
        old(offer_data).wf(),
    ensures
        (r is Ok) <==> (offer_index as int) < old(offer_data).offer_item_count as int,
        r is Err ==> r == Result::<(), NMError>::Err(NMError::OverflowOfferCount) && *final(offer_data) == *old(offer_data),
        r is Ok ==> ({
            &&& final(offer_data).offer_item_count == old(offer_data).offer_item_count - 1
            &&& final(offer_data).offer_items@ == old(offer_data).offer_items@.update(
                offer_index as int,
                old(offer_data).offer_items@[old(offer_data).offer_item_count as int - 1],
            )
            &&& final(offer_data).pending() == old(offer_data).pending().update(
                offer_index as int,
                old(offer_data).pending().last(),
            ).drop_last()
            &&& final(offer_data).collection_id == old(offer_data).collection_id
            &&& final(offer_data).nft_id == old(offer_data).nft_id
            &&& final(offer_data).offeror == old(offer_data).offeror
            &&& final(offer_data).pool == old(offer_data).pool
            &&& final(offer_data).listed_price == old(offer_data).listed_price
            &&& final(offer_data).floor_price == old(offer_data).floor_price
        }),
        final(offer_data).wf(),
{
    if !(offer_index < offer_data.offer_item_count) {
        return Err(NMError::OverflowOfferCount);
    }
    offer_data.remove_offer_item(offer_index);
    Ok(())
}

/// Withdraws the offer at `offer_index`: self-service, so the caller must
/// be the offeror the ledger records. Compacts like `reject_offer`.
pub fn cancel_offer(offer_data: &mut OfferData, offeror: AccountRef, offer_index: u8) -> (r:
    Result<(), NMError>)
    requires
        old(offer_data).wf(),
    ensures
        (r is Ok) <==> (offeror == old(offer_data).offeror
            && (offer_index as int) < old(offer_data).offer_item_count as int),
        r == Result::<(), NMError>::Err(NMError::InvalidOwner) <==> offeror != old(offer_data).offeror,
        r == Result::<(), NMError>::Err(NMError::OverflowOfferCount) <==> (offeror == old(offer_data).offeror && (offer_index as int) >= old(offer_data).offer_item_count as int),
        r is Err ==> *final(offer_data) == *old(offer_data),
        r is Ok ==> ({
            &&& final(offer_data).offer_item_count == old(offer_data).offer_item_count - 1
            &&& final(offer_data).offer_items@ == old(offer_data).offer_items@.update(
                offer_index as int,
                old(offer_data).offer_items@[old(offer_data).offer_item_count as int - 1],
            )
            &&& final(offer_data).pending() == old(offer_data).pending().update(
                offer_index as int,
                old(offer_data).pending().last(),
            ).drop_last()
            &&& final(offer_data).collection_id == old(offer_data).collection_id
            &&& final(offer_data).nft_id == old(offer_data).nft_id
            &&& final(offer_data).offeror == old(offer_data).offeror
            &&& final(offer_data).pool == old(offer_data).pool
            &&& final(offer_data).listed_price == old(offer_data).listed_price
            &&& final(offer_data).floor_price == old(offer_data).floor_price
        }),
        final(offer_data).wf(),
{
    if !(offer_data.offeror == offeror) {
        return Err(NMError::InvalidOwner);
    }
    if !(offer_index < offer_data.offer_item_count) {
        return Err(NMError::OverflowOfferCount);
    }
    offer_data.remove_offer_item(offer_index);
    Ok(())
}

/// Records the catalog entry of one asset.
pub fn add_nft(
    nft_addr: AccountRef,
    owner: AccountRef,
    collection_id: u32,
    nft_id: u32,
    pool: AccountRef,
) -> (nft_data: NftData)
    ensures
        nft_data.nft_addr == nft_addr,
        nft_data.owner == owner,
        nft_data.collection_id == collection_id,
        nft_data.nft_id == nft_id,
        nft_data.pool == pool,
{
    NftData { nft_addr, owner, collection_id, nft_id, pool }
}

/// The access check of a settlement step: the caller-supplied account
/// must be the recorded owner of the catalog entry being settled.
pub fn user(nft_data: &NftData, user_key: &AccountRef) -> (r: Result<(), NMError>)
    ensures
        (r is Ok) <==> nft_data.owner == *user_key,
        r is Err ==> r == Result::<(), NMError>::Err(NMError::InvalidOwner),
{
    if nft_data.owner == *user_key {
        Ok(())
    } else {
        Err(NMError::InvalidOwner)
    }
}

/// Records the sale of one asset at `price`. Moving the asset itself into
/// the custody holding account is the host's transfer to perform once
/// the record is stored.
pub fn put_token_on_sale(
    owner: AccountRef,
    collection_id: u32,
    nft_id: u32,
    price: u64,
) -> (nft_on_sale: NftOnSale)
    ensures
        nft_on_sale.owner == owner,
        nft_on_sale.collection_id == collection_id,
        nft_on_sale.nft_id == nft_id,
        nft_on_sale.price == price,
{
    NftOnSale { owner, collection_id, nft_id, price }
}

} // verus!
