use ledger_contracts::listing::{Listing, ListingStatus, MarketplaceError, MarketplaceEvent};
use ledger_contracts::marketplace::AdvancedMarketplace;
use ledger_contracts::store::ListingStore;
use std::cell::RefCell;

const OWNER: u64 = 1;
const TREASURY: u64 = 2;
const SELLER: u64 = 10;
const BUYER: u64 = 20;
const NFT_CONTRACT: u64 = 100;
const CURRENCY: u64 = 200;

fn market(fee_bps: u32) -> AdvancedMarketplace {
    let mut m = AdvancedMarketplace::new();
    m.initialize(OWNER, TREASURY, fee_bps).unwrap();
    m
}

#[test]
fn purchase_pays_seller_and_treasury_and_moves_asset() {
    let mut m = market(250);
    let id = m
        .create_listing(SELLER, NFT_CONTRACT, 7, 1000, CURRENCY, 100, 0)
        .unwrap();
    let legs: RefCell<Vec<(u64, u64, u64, i128)>> = RefCell::new(Vec::new());
    let svc = |token: u64, from: u64, to: u64, amount: i128| {
        legs.borrow_mut().push((token, from, to, amount));
        true
    };
    m.purchase_listing(BUYER, id, 50, svc).unwrap();
    assert_eq!(
        legs.into_inner(),
        vec![
            (CURRENCY, BUYER, SELLER, 975),
            (CURRENCY, BUYER, TREASURY, 25),
            (NFT_CONTRACT, SELLER, BUYER, 7),
        ]
    );
    let listing = m.get_listing(id).unwrap();
    assert_eq!(listing.status, ListingStatus::Sold);
    assert_eq!(
        m.events().last().unwrap(),
        &MarketplaceEvent::ListingPurchased(id, SELLER, BUYER, 1000)
    );
}

#[test]
fn purchase_with_zero_fee_skips_the_treasury_leg() {
    let mut m = market(0);
    let id = m
        .create_listing(SELLER, NFT_CONTRACT, 7, 1000, CURRENCY, 100, 0)
        .unwrap();
    let legs: RefCell<Vec<(u64, u64, u64, i128)>> = RefCell::new(Vec::new());
    let svc = |token: u64, from: u64, to: u64, amount: i128| {
        legs.borrow_mut().push((token, from, to, amount));
        true
    };
    m.purchase_listing(BUYER, id, 50, svc).unwrap();
    assert_eq!(
        legs.into_inner(),
        vec![
            (CURRENCY, BUYER, SELLER, 1000),
            (NFT_CONTRACT, SELLER, BUYER, 7),
        ]
    );
}

#[test]
fn purchase_after_expiry_fails_and_records_the_expiry() {
    let mut m = market(250);
    let id = m
        .create_listing(SELLER, NFT_CONTRACT, 7, 1000, CURRENCY, 100, 0)
        .unwrap();
    let called = RefCell::new(false);
    let svc = |_token: u64, _from: u64, _to: u64, _amount: i128| {
        *called.borrow_mut() = true;
        true
    };
    let r = m.purchase_listing(BUYER, id, 150, svc);
    assert_eq!(r, Err(MarketplaceError::ListingExpired));
    assert!(!called.into_inner());
    assert_eq!(m.get_listing(id).unwrap().status, ListingStatus::Expired);
    assert_eq!(m.events().last().unwrap(), &MarketplaceEvent::ListingExpired(id));
    // The listing is terminal now: a later attempt is not an expiry again.
    let r2 = m.purchase_listing(BUYER, id, 200, |_t: u64, _f: u64, _o: u64, _a: i128| true);
    assert_eq!(r2, Err(MarketplaceError::ListingNotActive));
}

#[test]
fn purchase_on_the_boundary_is_still_on_time() {
    let mut m = market(250);
    let id = m
        .create_listing(SELLER, NFT_CONTRACT, 7, 1000, CURRENCY, 100, 0)
        .unwrap();
    m.purchase_listing(BUYER, id, 100, |_t: u64, _f: u64, _o: u64, _a: i128| true)
        .unwrap();
    assert_eq!(m.get_listing(id).unwrap().status, ListingStatus::Sold);
}

#[test]
fn failed_settlement_leg_leaves_the_listing_active() {
    let mut m = market(250);
    let id = m
        .create_listing(SELLER, NFT_CONTRACT, 7, 1000, CURRENCY, 100, 0)
        .unwrap();
    let calls = RefCell::new(0u32);
    let failing_second_leg = |_token: u64, _from: u64, _to: u64, _amount: i128| {
        *calls.borrow_mut() += 1;
        *calls.borrow() != 2
    };
    let r = m.purchase_listing(BUYER, id, 50, failing_second_leg);
    assert_eq!(r, Err(MarketplaceError::TokenTransferFailed));
    assert_eq!(calls.into_inner(), 2);
    assert_eq!(m.get_listing(id).unwrap().status, ListingStatus::Active);
    // No purchase was recorded, and the listing can still be settled.
    assert_eq!(m.events().last().unwrap(), &MarketplaceEvent::ListingCreated(id, SELLER, NFT_CONTRACT, 7, 1000));
    m.purchase_listing(BUYER, id, 60, |_t: u64, _f: u64, _o: u64, _a: i128| true)
        .unwrap();
    assert_eq!(m.get_listing(id).unwrap().status, ListingStatus::Sold);
}

#[test]
fn sold_listing_cannot_be_purchased_or_cancelled_again() {
    let mut m = market(250);
    let id = m
        .create_listing(SELLER, NFT_CONTRACT, 7, 1000, CURRENCY, 100, 0)
        .unwrap();
    m.purchase_listing(BUYER, id, 50, |_t: u64, _f: u64, _o: u64, _a: i128| true)
        .unwrap();
    let again = m.purchase_listing(BUYER, id, 60, |_t: u64, _f: u64, _o: u64, _a: i128| true);
    assert_eq!(again, Err(MarketplaceError::ListingNotActive));
    assert_eq!(m.cancel_listing(SELLER, id), Err(MarketplaceError::ListingNotActive));
    assert_eq!(m.get_listing(id).unwrap().status, ListingStatus::Sold);
    // Exactly one purchase event for the listing.
    let purchases = m
        .events()
        .iter()
        .filter(|e| matches!(e, MarketplaceEvent::ListingPurchased(i, _, _, _) if *i == id))
        .count();
    assert_eq!(purchases, 1);
}

#[test]
fn cancel_by_another_seller_is_refused_and_changes_nothing() {
    let mut m = market(250);
    let id = m
        .create_listing(SELLER, NFT_CONTRACT, 7, 1000, CURRENCY, 100, 0)
        .unwrap();
    let r = m.cancel_listing(SELLER + 1, id);
    assert_eq!(r, Err(MarketplaceError::NotAuthorized));
    assert_eq!(m.get_listing(id).unwrap().status, ListingStatus::Active);
}

#[test]
fn cancel_by_the_seller_retires_the_listing() {
    let mut m = market(250);
    let id = m
        .create_listing(SELLER, NFT_CONTRACT, 7, 1000, CURRENCY, 100, 0)
        .unwrap();
    m.cancel_listing(SELLER, id).unwrap();
    assert_eq!(m.get_listing(id).unwrap().status, ListingStatus::Cancelled);
    assert_eq!(m.events().last().unwrap(), &MarketplaceEvent::ListingCancelled(id, SELLER));
}

#[test]
fn rejected_creations_consume_no_id() {
    let mut m = market(250);
    assert_eq!(
        m.create_listing(SELLER, NFT_CONTRACT, 7, 0, CURRENCY, 100, 0),
        Err(MarketplaceError::InvalidPrice)
    );
    assert_eq!(
        m.create_listing(SELLER, NFT_CONTRACT, 7, -5, CURRENCY, 100, 0),
        Err(MarketplaceError::InvalidPrice)
    );
    assert_eq!(
        m.create_listing(SELLER, NFT_CONTRACT, 7, 1000, CURRENCY, 0, 0),
        Err(MarketplaceError::InvalidDuration)
    );
    assert_eq!(m.get_listing(1), None);
    // The next id was not consumed: the first accepted listing gets id 1.
    let id = m
        .create_listing(SELLER, NFT_CONTRACT, 7, 1000, CURRENCY, 100, 0)
        .unwrap();
    assert_eq!(id, 1);
}

#[test]
fn ids_rise_by_one_from_one() {
    let mut m = market(250);
    for expected in 1..=5u64 {
        let id = m
            .create_listing(SELLER, NFT_CONTRACT, expected, 1000, CURRENCY, 100, 0)
            .unwrap();
        assert_eq!(id, expected);
    }
    assert_eq!(m.get_user_listings(SELLER), vec![1, 2, 3, 4, 5]);
}

#[test]
fn seller_index_keeps_creation_order_per_seller() {
    let mut m = market(250);
    m.create_listing(SELLER, NFT_CONTRACT, 1, 1000, CURRENCY, 100, 0).unwrap();
    m.create_listing(SELLER + 1, NFT_CONTRACT, 2, 1000, CURRENCY, 100, 0).unwrap();
    m.create_listing(SELLER, NFT_CONTRACT, 3, 1000, CURRENCY, 100, 0).unwrap();
    assert_eq!(m.get_user_listings(SELLER), vec![1, 3]);
    assert_eq!(m.get_user_listings(SELLER + 1), vec![2]);
    assert_eq!(m.get_user_listings(SELLER + 2), Vec::<u64>::new());
    // Cancelling removes nothing from the index.
    m.cancel_listing(SELLER, 1).unwrap();
    assert_eq!(m.get_user_listings(SELLER), vec![1, 3]);
}

#[test]
fn operations_before_initialization_are_refused() {
    let mut m = AdvancedMarketplace::new();
    assert!(!m.is_initialized());
    assert_eq!(m.get_owner(), None);
    assert_eq!(m.get_treasury(), None);
    assert_eq!(m.get_marketplace_fee(), 250);
    assert_eq!(
        m.create_listing(SELLER, NFT_CONTRACT, 7, 1000, CURRENCY, 100, 0),
        Err(MarketplaceError::NotInitialized)
    );
    let r = m.purchase_listing(BUYER, 1, 0, |_t: u64, _f: u64, _o: u64, _a: i128| true);
    assert_eq!(r, Err(MarketplaceError::NotInitialized));
    assert_eq!(m.cancel_listing(SELLER, 1), Err(MarketplaceError::NotInitialized));
    assert_eq!(m.update_marketplace_fee(OWNER, 100), Err(MarketplaceError::NotInitialized));
}

#[test]
fn initialize_runs_once() {
    let mut m = market(250);
    assert!(m.is_initialized());
    assert_eq!(m.get_owner(), Some(OWNER));
    assert_eq!(m.get_treasury(), Some(TREASURY));
    assert_eq!(m.initialize(OWNER + 1, TREASURY, 100), Err(MarketplaceError::AlreadyInitialized));
    assert_eq!(m.get_owner(), Some(OWNER));
}

#[test]
fn purchase_of_an_unknown_listing_is_not_found() {
    let mut m = market(250);
    let r = m.purchase_listing(BUYER, 42, 0, |_t: u64, _f: u64, _o: u64, _a: i128| true);
    assert_eq!(r, Err(MarketplaceError::ListingNotFound));
    assert_eq!(m.cancel_listing(SELLER, 42), Err(MarketplaceError::ListingNotFound));
}

#[test]
fn administration_is_owner_only() {
    let mut m = market(250);
    assert_eq!(m.update_marketplace_fee(SELLER, 100), Err(MarketplaceError::NotAuthorized));
    assert_eq!(m.get_marketplace_fee(), 250);
    m.update_marketplace_fee(OWNER, 100).unwrap();
    assert_eq!(m.get_marketplace_fee(), 100);

    assert_eq!(m.update_treasury(SELLER, 9), Err(MarketplaceError::NotAuthorized));
    m.update_treasury(OWNER, 9).unwrap();
    assert_eq!(m.get_treasury(), Some(9));

    assert_eq!(m.transfer_ownership(SELLER, SELLER), Err(MarketplaceError::NotAuthorized));
    m.transfer_ownership(OWNER, 5).unwrap();
    assert_eq!(m.get_owner(), Some(5));
    assert_eq!(m.events().last().unwrap(), &MarketplaceEvent::OwnershipTransferred(OWNER, 5));
    // The old owner lost control.
    assert_eq!(m.update_marketplace_fee(OWNER, 50), Err(MarketplaceError::NotAuthorized));
    m.update_marketplace_fee(5, 50).unwrap();
}

#[test]
fn new_fee_applies_to_later_purchases() {
    let mut m = market(250);
    m.update_marketplace_fee(OWNER, 1000).unwrap();
    let id = m
        .create_listing(SELLER, NFT_CONTRACT, 7, 500, CURRENCY, 100, 0)
        .unwrap();
    let legs: RefCell<Vec<(u64, u64, u64, i128)>> = RefCell::new(Vec::new());
    let svc = |token: u64, from: u64, to: u64, amount: i128| {
        legs.borrow_mut().push((token, from, to, amount));
        true
    };
    m.purchase_listing(BUYER, id, 50, svc).unwrap();
    assert_eq!(
        legs.into_inner(),
        vec![
            (CURRENCY, BUYER, SELLER, 450),
            (CURRENCY, BUYER, TREASURY, 50),
            (NFT_CONTRACT, SELLER, BUYER, 7),
        ]
    );
}

#[test]
fn created_listing_carries_its_fields() {
    let mut m = market(250);
    let id = m
        .create_listing(SELLER, NFT_CONTRACT, 7, 1000, CURRENCY, 100, 5)
        .unwrap();
    let l = m.get_listing(id).unwrap();
    assert_eq!(l.id, id);
    assert_eq!(l.seller, SELLER);
    assert_eq!(l.token_contract, NFT_CONTRACT);
    assert_eq!(l.token_id, 7);
    assert_eq!(l.price, 1000);
    assert_eq!(l.currency, CURRENCY);
    assert_eq!(l.status, ListingStatus::Active);
    assert_eq!(l.created_at, 5);
    assert_eq!(l.expires_at, 105);
    assert_eq!(
        m.events().last().unwrap(),
        &MarketplaceEvent::ListingCreated(id, SELLER, NFT_CONTRACT, 7, 1000)
    );
}

#[test]
fn store_allocates_ids_and_keeps_records() {
    let mut s = ListingStore::new();
    let id = s.next_id();
    assert_eq!(id, 1);
    assert_eq!(s.next_id(), 2);
    let listing = Listing {
        id: 1,
        seller: SELLER,
        token_contract: NFT_CONTRACT,
        token_id: 7,
        price: 1000,
        currency: CURRENCY,
        status: ListingStatus::Active,
        created_at: 0,
        expires_at: 100,
    };
    s.put(1, listing.clone());
    assert_eq!(s.get(1), Some(listing.clone()));
    assert_eq!(s.get(2), None);
    assert_eq!(s.get(0), None);
    s.append_to_seller_index(SELLER, 1);
    assert_eq!(s.seller_listings(SELLER), vec![1]);
    assert_eq!(s.seller_listings(SELLER + 1), Vec::<u64>::new());
    let sold = Listing { status: ListingStatus::Sold, ..listing };
    s.put(1, sold.clone());
    assert_eq!(s.get(1), Some(sold));
}
