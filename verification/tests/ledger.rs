use nm_offer::account::{AccountRef, OfferData};
use nm_offer::add_nft;
use nm_offer::add_offer;
use nm_offer::accept_offer;
use nm_offer::cancel_offer;
use nm_offer::create_offerdata;
use nm_offer::constant::{BUY_MAX_NFT_COUNT, MAX_OFFER_COUNT};
use nm_offer::error::NMError;
use nm_offer::initialize;
use nm_offer::put_token_on_sale;
use nm_offer::reject_offer;
use nm_offer::user;

fn key(n: u64) -> AccountRef {
    AccountRef { w0: n, w1: 0, w2: 0, w3: 0 }
}

fn zeros() -> [AccountRef; BUY_MAX_NFT_COUNT] {
    [key(0); BUY_MAX_NFT_COUNT]
}

fn ledger() -> OfferData {
    create_offerdata(key(99))
}

#[test]
fn test_initialize_records_owner_and_bump() {
    let pool = initialize(key(7), 253);
    assert_eq!(pool.owner, key(7));
    assert_eq!(pool.bump, 253);
}

#[test]
fn test_create_offerdata_is_empty_with_pool() {
    let od = ledger();
    assert_eq!(od.pool, key(99));
    assert_eq!(od.offer_item_count, 0);
    assert_eq!(od.collection_id, 0);
    assert_eq!(od.nft_id, 0);
    assert_eq!(od.offeror, key(0));
    assert_eq!(od.listed_price, 0);
    assert_eq!(od.floor_price, 0);
    // a fresh ledger is zero-valued throughout, offer slots included
    for item in od.offer_items {
        assert_eq!(item.offer_amount_sol, 0);
        assert_eq!(item.offer_nft_price, 0);
        assert_eq!(item.offer_nft_count, 0);
        assert_eq!(item.offer_nft_mint, zeros());
        assert_eq!(item.offer_nft_account, zeros());
    }
}

#[test]
fn test_add_offer_nft_bundle_bypasses_floor() {
    // payment 0 is under the floor of 10, but the offer bundles 3 assets
    let mut od = ledger();
    add_offer(&mut od, key(1), key(99), 7, 9, 0, 2, 100, 10, zeros(), zeros(), 3);
    assert_eq!(od.offer_item_count, 1);
    assert_eq!(od.offer_items[0].offer_amount_sol, 0);
    assert_eq!(od.offer_items[0].offer_nft_count, 3);
}

#[test]
fn test_add_offer_payment_only_floor_check() {
    let mut od = ledger();
    // 9 < floor 10 and no assets: ignored, not an error
    add_offer(&mut od, key(1), key(99), 7, 9, 9, 2, 100, 10, zeros(), zeros(), 0);
    assert_eq!(od.offer_item_count, 0);
    // exactly the floor: taken
    add_offer(&mut od, key(1), key(99), 7, 9, 10, 2, 100, 10, zeros(), zeros(), 0);
    assert_eq!(od.offer_item_count, 1);
    assert_eq!(od.offer_items[0].offer_amount_sol, 10);
}

#[test]
fn test_add_offer_capacity_boundary() {
    let mut od = ledger();
    for n in 0..(MAX_OFFER_COUNT as u64 - 1) {
        add_offer(&mut od, key(n), key(99), 7, 9, 20 + n, 2, 100, 10, zeros(), zeros(), 0);
    }
    assert_eq!(od.offer_item_count as usize, MAX_OFFER_COUNT - 1);
    // the add at occupancy N-1 succeeds and fills the ledger
    add_offer(&mut od, key(8), key(99), 7, 9, 50, 2, 100, 10, zeros(), zeros(), 0);
    assert_eq!(od.offer_item_count as usize, MAX_OFFER_COUNT);
    // the add against a full ledger is a silent no-op
    add_offer(&mut od, key(9), key(99), 7, 9, 60, 2, 100, 10, zeros(), zeros(), 0);
    assert_eq!(od.offer_item_count as usize, MAX_OFFER_COUNT);
    assert_eq!(od.offer_items[MAX_OFFER_COUNT - 1].offer_amount_sol, 50);
    // the ignored add also left the shared context alone
    assert_eq!(od.offeror, key(8));
}

#[test]
fn test_add_offer_restamps_listing_context() {
    let mut od = ledger();
    add_offer(&mut od, key(1), key(99), 7, 9, 20, 2, 100, 10, zeros(), zeros(), 0);
    add_offer(&mut od, key(2), key(98), 8, 11, 30, 3, 200, 15, zeros(), zeros(), 0);
    // every taken add re-stamps the shared listing fields from its call
    assert_eq!(od.offeror, key(2));
    assert_eq!(od.pool, key(98));
    assert_eq!(od.collection_id, 8);
    assert_eq!(od.nft_id, 11);
    assert_eq!(od.listed_price, 200);
    assert_eq!(od.floor_price, 15);
    assert_eq!(od.offer_item_count, 2);
    assert_eq!(od.offer_items[0].offer_amount_sol, 20);
    assert_eq!(od.offer_items[1].offer_amount_sol, 30);
}

#[test]
fn test_reject_offer_removes_exactly_one_and_compacts() {
    let mut od = ledger();
    add_offer(&mut od, key(1), key(99), 7, 9, 20, 2, 100, 10, zeros(), zeros(), 0);
    add_offer(&mut od, key(1), key(99), 7, 9, 30, 2, 100, 10, zeros(), zeros(), 0);
    add_offer(&mut od, key(1), key(99), 7, 9, 40, 2, 100, 10, zeros(), zeros(), 0);
    assert_eq!(reject_offer(&mut od, 0), Ok(()));
    // swap-with-last removal: the last offer moved into slot 0
    assert_eq!(od.offer_item_count, 2);
    assert_eq!(od.offer_items[0].offer_amount_sol, 40);
    assert_eq!(od.offer_items[1].offer_amount_sol, 30);
    // a second reject on the same index removes one more offer, not two
    assert_eq!(reject_offer(&mut od, 0), Ok(()));
    assert_eq!(od.offer_item_count, 1);
    assert_eq!(od.offer_items[0].offer_amount_sol, 30);
}

#[test]
fn test_reject_offer_bad_index() {
    let mut od = ledger();
    add_offer(&mut od, key(1), key(99), 7, 9, 20, 2, 100, 10, zeros(), zeros(), 0);
    assert_eq!(reject_offer(&mut od, 1), Err(NMError::OverflowOfferCount));
    assert_eq!(od.offer_item_count, 1);
    assert_eq!(reject_offer(&mut od, 0), Ok(()));
    assert_eq!(od.offer_item_count, 0);
    assert_eq!(reject_offer(&mut od, 0), Err(NMError::OverflowOfferCount));
}

#[test]
fn test_accept_offer_collapses_to_chosen_item() {
    let mut od = ledger();
    add_offer(&mut od, key(1), key(99), 7, 9, 20, 2, 100, 10, zeros(), zeros(), 0);
    add_offer(&mut od, key(1), key(99), 7, 9, 30, 2, 100, 10, zeros(), zeros(), 0);
    add_offer(&mut od, key(1), key(99), 7, 9, 40, 2, 100, 10, zeros(), zeros(), 0);
    assert_eq!(accept_offer(&mut od, 1), Ok(()));
    assert_eq!(od.offer_item_count, 1);
    assert_eq!(od.offer_items[0].offer_amount_sol, 30);
}

#[test]
fn test_accept_offer_bad_index() {
    let mut od = ledger();
    assert_eq!(accept_offer(&mut od, 0), Err(NMError::OverflowOfferCount));
    add_offer(&mut od, key(1), key(99), 7, 9, 20, 2, 100, 10, zeros(), zeros(), 0);
    assert_eq!(accept_offer(&mut od, 3), Err(NMError::OverflowOfferCount));
    assert_eq!(od.offer_item_count, 1);
}

#[test]
fn test_cancel_offer_checks_offeror() {
    let mut od = ledger();
    add_offer(&mut od, key(1), key(99), 7, 9, 20, 2, 100, 10, zeros(), zeros(), 0);
    // only the recorded offeror may cancel
    assert_eq!(cancel_offer(&mut od, key(2), 0), Err(NMError::InvalidOwner));
    assert_eq!(od.offer_item_count, 1);
    // the offeror check comes before the index check
    assert_eq!(cancel_offer(&mut od, key(2), 5), Err(NMError::InvalidOwner));
    assert_eq!(cancel_offer(&mut od, key(1), 5), Err(NMError::OverflowOfferCount));
    assert_eq!(cancel_offer(&mut od, key(1), 0), Ok(()));
    assert_eq!(od.offer_item_count, 0);
}

#[test]
fn test_add_nft_records_catalog_entry() {
    let nd = add_nft(key(5), key(6), 7, 9, key(99));
    assert_eq!(nd.nft_addr, key(5));
    assert_eq!(nd.owner, key(6));
    assert_eq!(nd.collection_id, 7);
    assert_eq!(nd.nft_id, 9);
    assert_eq!(nd.pool, key(99));
}

#[test]
fn test_user_access_check() {
    let nd = add_nft(key(5), key(6), 7, 9, key(99));
    assert_eq!(user(&nd, &key(6)), Ok(()));
    assert_eq!(user(&nd, &key(7)), Err(NMError::InvalidOwner));
}

#[test]
fn test_put_token_on_sale_records_sale() {
    let sale = put_token_on_sale(key(6), 7, 9, 150);
    assert_eq!(sale.owner, key(6));
    assert_eq!(sale.collection_id, 7);
    assert_eq!(sale.nft_id, 9);
    assert_eq!(sale.price, 150);
}
