//! The listing lifecycle engine: creation, settlement, cancellation and lazy
//! expiry of marketplace listings, plus the owner/treasury/fee
//! administration around them.
//!
//! The engine holds no ambient state: callers pass the authenticated
//! principal and the current time explicitly, and a purchase receives the
//! asset transfer service as a closure `(asset_or_currency, from, to,
//! amount) -> success`. A listing is marked `Sold` only after every
//! settlement leg has reported success; when a leg fails, the operation
//! fails as a whole and the state is unchanged, and the host's atomic
//! commit is expected to roll back the legs already performed.

use crate::fees;
use crate::fees::{fee_amount, seller_amount};
use crate::listing::{Listing, ListingStatus, MarketplaceError, MarketplaceEvent};
use crate::store::ListingStore;
use vstd::prelude::*;

verus! {

/// The marketplace configuration written once by `initialize` and read by
/// every later operation.
#[derive(Clone, Copy, Debug, PartialEq, Eq, Structural)]
pub struct MarketplaceConfig {
    pub owner: u64,
    pub treasury: u64,
    pub fee_bps: u32,
}

/// How many `ListingPurchased` events for listing `id` the log holds.
pub open spec fn purchase_events_for(events: Seq<MarketplaceEvent>, id: u64) -> nat
    decreases events.len(),
{
    if events.len() == 0 {
        0
    } else {
        purchase_events_for(events.drop_last(), id) + match events.last() {
            MarketplaceEvent::ListingPurchased(i, _, _, _) => if i == id {
                1nat
            } else {
                0nat
            },
            _ => 0nat,
        }
    }
}

/// Appending one event raises exactly the purchase count of the listing a
/// `ListingPurchased` event names, by one.
pub proof fn lemma_purchase_events_push(events: Seq<MarketplaceEvent>, e: MarketplaceEvent, id: u64)
    ensures
        purchase_events_for(events.push(e), id) == purchase_events_for(events, id) + match e {
            MarketplaceEvent::ListingPurchased(i, _, _, _) => if i == id {
                1nat
            } else {
                0nat
            },
            _ => 0nat,
        },
{
    assert(events.push(e).drop_last() =~= events);
    assert(events.push(e).last() == e);
}

/// The fixed-price marketplace: configuration, the listing store, and the
/// event log.
pub struct AdvancedMarketplace {
    config: Option<MarketplaceConfig>,
    store: ListingStore,
    events: Vec<MarketplaceEvent>,
}

impl AdvancedMarketplace {
    /// The configuration, or `None` before `initialize` has run.
    pub closed spec fn spec_config(&self) -> Option<MarketplaceConfig> {
        self.config
    }

    /// Whether `initialize` has run.
    pub open spec fn spec_initialized(&self) -> bool {
        self.spec_config() is Some
    }

    /// All stored listings in id order: the listing with id `i` is element
    /// `i - 1`.
    pub closed spec fn listings(&self) -> Seq<Listing> {
        self.store.listings()
    }

    /// The id the next successful `create_listing` returns.
    pub closed spec fn spec_next_id(&self) -> u64 {
        self.store.spec_next_id()
    }

    /// The stored listing with this id, or `None`.
    pub open spec fn spec_listing(&self, id: u64) -> Option<Listing> {
        if 1 <= id && id <= self.listings().len() {
            Some(self.listings()[id - 1])
        } else {
            None
        }
    }

    /// Whether the listing with this id is stored and sold.
    pub open spec fn spec_sold(&self, id: u64) -> bool {
        match self.spec_listing(id) {
            Some(l) => l.status == ListingStatus::Sold,
            None => false,
        }
    }

    /// The event log, oldest first.
    pub closed spec fn spec_events(&self) -> Seq<MarketplaceEvent> {
        self.events@
    }

    /// The ids `seller` has listed, in creation order.
    pub closed spec fn spec_user_listings(&self, seller: u64) -> Seq<u64> {
        self.store.spec_seller_listings(seller)
    }

    /// Well-formedness, established by `new` and preserved by every
    /// operation:
    /// - ids are dense: the store holds exactly the listings with ids
    ///   `1 ..= next - 1`, each under its own id;
    /// - every stored listing has a positive price and expires strictly
    ///   after its creation;
    /// - a configured fee rate never exceeds 100%;
    /// - the log holds exactly one `ListingPurchased` event for each sold
    ///   listing and none for any other id.
    pub open spec fn wf(&self) -> bool {
        &&& self.spec_next_id() == self.listings().len() + 1
        &&& forall|i: int|
            0 <= i < self.listings().len() ==> (#[trigger] self.listings()[i]).id == i + 1
        &&& forall|i: int|
            0 <= i < self.listings().len() ==> (#[trigger] self.listings()[i]).well_formed()
        &&& (self.spec_config() matches Some(c) ==> c.fee_bps <= 10000)
        &&& forall|id: u64|
            #[trigger] purchase_events_for(self.spec_events(), id) == if self.spec_sold(id) {
                1nat
            } else {
                0nat
            }
    }

    /// Everything observable is as in `pre`.
    pub open spec fn unchanged(&self, pre: AdvancedMarketplace) -> bool {
        &&& self.spec_config() == pre.spec_config()
        &&& self.listings() == pre.listings()
        &&& self.spec_next_id() == pre.spec_next_id()
        &&& self.spec_events() == pre.spec_events()
        &&& forall|s: u64| #[trigger] self.spec_user_listings(s) == pre.spec_user_listings(s)
    }

    /// What validation decides for a purchase of `listing_id` at time
    /// `now`, before any settlement leg runs: the listing to settle, or the
    /// error the attempt reports.
    pub open spec fn purchase_validation(&self, listing_id: u64, now: u64) -> Result<
        Listing,
        MarketplaceError,
    > {
        if !self.spec_initialized() {
            Err(MarketplaceError::NotInitialized)
        } else {
            match self.spec_listing(listing_id) {
                None => Err(MarketplaceError::ListingNotFound),
                Some(l) => if l.status != ListingStatus::Active {
                    Err(MarketplaceError::ListingNotActive)
                } else if now > l.expires_at {
                    Err(MarketplaceError::ListingExpired)
                } else {
                    Ok(l)
                },
            }
        }
    }

    /// An empty, uninitialized marketplace.
    pub fn new() -> (m: AdvancedMarketplace)
        ensures
            m.wf(),
            !m.spec_initialized(),
            m.listings() == Seq::<Listing>::empty(),
            m.spec_events() == Seq::<MarketplaceEvent>::empty(),
            m.spec_next_id() == 1,
            forall|s: u64| #[trigger] m.spec_user_listings(s) == Seq::<u64>::empty(),
    {
        AdvancedMarketplace { config: None, store: ListingStore::new(), events: Vec::new() }
    }

    /// One-time setup of owner, treasury and fee rate. Fails with
    /// `AlreadyInitialized` on a second call and changes nothing then.
    pub fn initialize(&mut self, owner: u64, treasury: u64, marketplace_fee: u32) -> (r: Result<
        (),
        MarketplaceError,
    >)
        requires
            old(self).wf(),
            marketplace_fee <= 10000,
        ensures
            final(self).wf(),
            old(self).spec_initialized() ==> r == Err::<(), MarketplaceError>(
                MarketplaceError::AlreadyInitialized,
            ) && final(self).unchanged(*old(self)),
            !old(self).spec_initialized() ==> {
                &&& r == Ok::<(), MarketplaceError>(())
                &&& final(self).spec_config() == Some(
                    MarketplaceConfig { owner, treasury, fee_bps: marketplace_fee },
                )
                &&& final(self).listings() == old(self).listings()
                &&& final(self).spec_next_id() == old(self).spec_next_id()
                &&& final(self).spec_events() == old(self).spec_events()
                &&& forall|s: u64|
                    #[trigger] final(self).spec_user_listings(s) == old(self).spec_user_listings(s)
            },
    {
        if self.config.is_some() {
            return Err(MarketplaceError::AlreadyInitialized);
        }
        self.config = Some(MarketplaceConfig { owner, treasury, fee_bps: marketplace_fee });
        proof {
            assert forall|id: u64|
                #[trigger] purchase_events_for(self.spec_events(), id) == if self.spec_sold(id) {
                    1nat
                } else {
                    0nat
                } by {
                assert(purchase_events_for(old(self).spec_events(), id) == if old(self).spec_sold(
                    id,
                ) {
                    1nat
                } else {
                    0nat
                });
            }
        }
        Ok(())
    }

    /// Creates a listing: rejects a non-positive price with `InvalidPrice`
    /// and a zero duration with `InvalidDuration` (consuming no id in
    /// either case); otherwise allocates the next id, stores the listing as
    /// `Active` with a validity window of `duration` from `now`, appends
    /// the id to the seller's index, and logs a `ListingCreated` event.
    /// `seller` is the authenticated caller.
    pub fn create_listing(
        &mut self,
        seller: u64,
        token_contract: u64,
        token_id: u64,
        price: i128,
        currency: u64,
        duration: u64,
        now: u64,
    ) -> (r: Result<u64, MarketplaceError>)
        requires
            old(self).wf(),
            now + duration <= u64::MAX,
            old(self).spec_next_id() < u64::MAX,
        ensures
            final(self).wf(),
            final(self).spec_config() == old(self).spec_config(),
            !old(self).spec_initialized() ==> r == Err::<u64, MarketplaceError>(
                MarketplaceError::NotInitialized,
            ) && final(self).unchanged(*old(self)),
            old(self).spec_initialized() && price <= 0 ==> r == Err::<u64, MarketplaceError>(
                MarketplaceError::InvalidPrice,
            ) && final(self).unchanged(*old(self)),
            old(self).spec_initialized() && price > 0 && duration == 0 ==> r == Err::<
                u64,
                MarketplaceError,
            >(MarketplaceError::InvalidDuration) && final(self).unchanged(*old(self)),
            old(self).spec_initialized() && price > 0 && duration > 0 ==> {
                let id = old(self).spec_next_id();
                let l = Listing {
                    id,
                    seller,
                    token_contract,
                    token_id,
                    price,
                    currency,
                    status: ListingStatus::Active,
                    created_at: now,
                    expires_at: (now + duration) as u64,
                };
                &&& r == Ok::<u64, MarketplaceError>(id)
                &&& final(self).listings() == old(self).listings().push(l)
                &&& final(self).spec_next_id() == id + 1
                &&& final(self).spec_events() == old(self).spec_events().push(
                    MarketplaceEvent::ListingCreated(id, seller, token_contract, token_id, price),
                )
                &&& final(self).spec_user_listings(seller) == old(self).spec_user_listings(
                    seller,
                ).push(id)
                &&& forall|s: u64|
                    s != seller ==> #[trigger] final(self).spec_user_listings(s) == old(self).spec_user_listings(s)
            },
    {
        if let Err(e) = self.require_initialized() {
            return Err(e);
        }
        if price <= 0 {
            return Err(MarketplaceError::InvalidPrice);
        }
        if duration == 0 {
            return Err(MarketplaceError::InvalidDuration);
        }
        let listing_id = self.store.next_id();
        let expires_at = now + duration;
        let listing = Listing {
            id: listing_id,
            seller,
            token_contract,
            token_id,
            price,
            currency,
            status: ListingStatus::Active,
            created_at: now,
            expires_at,
        };
        self.store.put(listing_id, listing);
        self.store.append_to_seller_index(seller, listing_id);
        self.events.push(
            MarketplaceEvent::ListingCreated(listing_id, seller, token_contract, token_id, price),
        );
        proof {
            let ev = MarketplaceEvent::ListingCreated(
                listing_id,
                seller,
                token_contract,
                token_id,
                price,
            );
            assert forall|id2: u64|
                #[trigger] purchase_events_for(self.spec_events(), id2) == if self.spec_sold(id2) {
                    1nat
                } else {
                    0nat
                } by {
                lemma_purchase_events_push(old(self).spec_events(), ev, id2);
                assert(purchase_events_for(old(self).spec_events(), id2) == if old(self).spec_sold(
                    id2,
                ) {
                    1nat
                } else {
                    0nat
                });
            }
        }
        Ok(listing_id)
    }

    /// Purchases an active listing. `buyer` is the authenticated caller and
    /// `transfer` is the asset transfer service: called as
    /// `transfer(asset_or_currency, from, to, amount)`, it reports whether
    /// that settlement leg succeeded.
    ///
    /// Validation (initialization, existence, status) happens before any
    /// side effect. A listing whose expiry has passed is moved to `Expired`,
    /// the transition is recorded, and the attempt fails with
    /// `ListingExpired` — no settlement leg runs. Otherwise the engine asks
    /// the service for the seller's proceeds, then the fee (when positive),
    /// then the asset; the listing becomes `Sold` and a `ListingPurchased`
    /// event is logged only after every leg reported success. When a leg
    /// fails, the call returns `TokenTransferFailed` and the state is
    /// unchanged; rolling back legs already performed is the host's
    /// atomic-commit duty.
    pub fn purchase_listing<F: Fn(u64, u64, u64, i128) -> bool>(
        &mut self,
        buyer: u64,
        listing_id: u64,
        now: u64,
        transfer: F,
    ) -> (r: Result<(), MarketplaceError>)
        requires
            old(self).wf(),
            forall|a: (u64, u64, u64, i128)| a.3 >= 0 ==> #[trigger] transfer.requires(a),
        ensures
            final(self).wf(),
            final(self).spec_config() == old(self).spec_config(),
            final(self).spec_next_id() == old(self).spec_next_id(),
            forall|s: u64|
                #[trigger] final(self).spec_user_listings(s) == old(self).spec_user_listings(s),
            forall|i: u64|
                (old(self).spec_listing(i) matches Some(l) && l.status.is_terminal())
                    ==> final(self).spec_listing(i) == old(self).spec_listing(i),
            match old(self).purchase_validation(listing_id, now) {
                Err(MarketplaceError::ListingExpired) => {
                    &&& r == Err::<(), MarketplaceError>(MarketplaceError::ListingExpired)
                    &&& final(self).listings() == old(self).listings().update(
                        listing_id - 1,
                        old(self).spec_listing(listing_id)->Some_0.with_status(
                            ListingStatus::Expired,
                        ),
                    )
                    &&& final(self).spec_events() == old(self).spec_events().push(
                        MarketplaceEvent::ListingExpired(listing_id),
                    )
                },
                Err(e) => r == Err::<(), MarketplaceError>(e) && final(self).unchanged(
                    *old(self),
                ),
                Ok(l) => {
                    let c = old(self).spec_config()->Some_0;
                    let fee = fee_amount(l.price as int, c.fee_bps as int);
                    let pay = seller_amount(l.price as int, c.fee_bps as int);
                    match r {
                        Ok(_) => {
                            &&& final(self).listings() == old(self).listings().update(
                                listing_id - 1,
                                l.with_status(ListingStatus::Sold),
                            )
                            &&& final(self).spec_events() == old(self).spec_events().push(
                                MarketplaceEvent::ListingPurchased(
                                    listing_id,
                                    l.seller,
                                    buyer,
                                    l.price,
                                ),
                            )
                            &&& transfer.ensures(
                                (l.currency, buyer, l.seller, pay as i128),
                                true,
                            )
                            &&& fee > 0 ==> transfer.ensures(
                                (l.currency, buyer, c.treasury, fee as i128),
                                true,
                            )
                            &&& transfer.ensures(
                                (l.token_contract, l.seller, buyer, l.token_id as i128),
                                true,
                            )
                        },
                        Err(e) => {
                            &&& e == MarketplaceError::TokenTransferFailed
                            &&& final(self).unchanged(*old(self))
                            &&& {
                                ||| transfer.ensures(
                                    (l.currency, buyer, l.seller, pay as i128),
                                    false,
                                )
                                ||| fee > 0 && transfer.ensures(
                                    (l.currency, buyer, c.treasury, fee as i128),
                                    false,
                                )
                                ||| transfer.ensures(
                                    (l.token_contract, l.seller, buyer, l.token_id as i128),
                                    false,
                                )
                            }
                        },
                    }
                },
            },
    {
        if let Err(e) = self.require_initialized() {
            return Err(e);
        }
        let cfg = self.config.unwrap();
        let found = self.store.get(listing_id);
        if found.is_none() {
            return Err(MarketplaceError::ListingNotFound);
        }
        let mut listing = found.unwrap();
        if listing.status != ListingStatus::Active {
            return Err(MarketplaceError::ListingNotActive);
        }
        if now > listing.expires_at {
            listing.status = ListingStatus::Expired;
            self.store.put(listing_id, listing);
            self.events.push(MarketplaceEvent::ListingExpired(listing_id));
            proof {
                self.lemma_purchase_count_after_status_change(
                    *old(self),
                    listing_id,
                    MarketplaceEvent::ListingExpired(listing_id),
                );
            }
            return Err(MarketplaceError::ListingExpired);
        }
        let (fee, pay) = fees::split(listing.price, cfg.fee_bps);
        if !transfer(listing.currency, buyer, listing.seller, pay) {
            return Err(MarketplaceError::TokenTransferFailed);
        }
        if fee > 0 {
            if !transfer(listing.currency, buyer, cfg.treasury, fee) {
                return Err(MarketplaceError::TokenTransferFailed);
            }
        }
        if !transfer(listing.token_contract, listing.seller, buyer, listing.token_id as i128) {
            return Err(MarketplaceError::TokenTransferFailed);
        }
        listing.status = ListingStatus::Sold;
        self.store.put(listing_id, listing);
        self.events.push(
            MarketplaceEvent::ListingPurchased(listing_id, listing.seller, buyer, listing.price),
        );
        proof {
            self.lemma_purchase_count_after_status_change(
                *old(self),
                listing_id,
                MarketplaceEvent::ListingPurchased(listing_id, listing.seller, buyer, listing.price),
            );
        }
        Ok(())
    }

    /// After flipping the status of the one listing `listing_id` and
    /// appending `ev` to the log of `pre`, the purchase-count bookkeeping of
    /// `wf` still holds, provided the listing was not sold before, is sold
    /// afterwards exactly when `ev` is a `ListingPurchased` event for it,
    /// and nothing else moved.
    proof fn lemma_purchase_count_after_status_change(
        &self,
        pre: AdvancedMarketplace,
        listing_id: u64,
        ev: MarketplaceEvent,
    )
        requires
            pre.wf(),
            self.spec_events() == pre.spec_events().push(ev),
            !pre.spec_sold(listing_id),
            self.spec_sold(listing_id) == (ev matches MarketplaceEvent::ListingPurchased(
                i,
                _,
                _,
                _,
            ) && i == listing_id),
            !(ev matches MarketplaceEvent::ListingPurchased(i, _, _, _) && i != listing_id),
            forall|i: u64| i != listing_id ==> #[trigger] self.spec_sold(i) == pre.spec_sold(i),
        ensures
            forall|id: u64|
                #[trigger] purchase_events_for(self.spec_events(), id) == if self.spec_sold(id) {
                    1nat
                } else {
                    0nat
                },
    {
        assert forall|id: u64|
            #[trigger] purchase_events_for(self.spec_events(), id) == if self.spec_sold(id) {
                1nat
            } else {
                0nat
            } by {
            lemma_purchase_events_push(pre.spec_events(), ev, id);
            assert(purchase_events_for(pre.spec_events(), id) == if pre.spec_sold(id) {
                1nat
            } else {
                0nat
            });
        }
    }

    /// What validation decides for a cancellation of `listing_id` by
    /// `caller`: the listing to cancel, or the error the attempt reports.
    /// Only the stored seller may cancel, and only while the listing is
    /// active.
    pub open spec fn cancel_validation(&self, caller: u64, listing_id: u64) -> Result<
        Listing,
        MarketplaceError,
    > {
        if !self.spec_initialized() {
            Err(MarketplaceError::NotInitialized)
        } else {
            match self.spec_listing(listing_id) {
                None => Err(MarketplaceError::ListingNotFound),
                Some(l) => if l.seller != caller {
                    Err(MarketplaceError::NotAuthorized)
                } else if l.status != ListingStatus::Active {
                    Err(MarketplaceError::ListingNotActive)
                } else {
                    Ok(l)
                },
            }
        }
    }

    /// Cancels an active listing. `seller` is the authenticated caller and
    /// must be the listing's stored seller (`NotAuthorized` otherwise, with
    /// nothing changed). On success the status becomes `Cancelled` and a
    /// `ListingCancelled` event is logged; the record itself is retained.
    pub fn cancel_listing(&mut self, seller: u64, listing_id: u64) -> (r: Result<
        (),
        MarketplaceError,
    >)
        requires
            old(self).wf(),
        ensures
            final(self).wf(),
            final(self).spec_config() == old(self).spec_config(),
            final(self).spec_next_id() == old(self).spec_next_id(),
            forall|s: u64|
                #[trigger] final(self).spec_user_listings(s) == old(self).spec_user_listings(s),
            forall|i: u64|
                (old(self).spec_listing(i) matches Some(l) && l.status.is_terminal())
                    ==> final(self).spec_listing(i) == old(self).spec_listing(i),
            match old(self).cancel_validation(seller, listing_id) {
                Err(e) => r == Err::<(), MarketplaceError>(e) && final(self).unchanged(
                    *old(self),
                ),
                Ok(l) => {
                    &&& r == Ok::<(), MarketplaceError>(())
                    &&& final(self).listings() == old(self).listings().update(
                        listing_id - 1,
                        l.with_status(ListingStatus::Cancelled),
                    )
                    &&& final(self).spec_events() == old(self).spec_events().push(
                        MarketplaceEvent::ListingCancelled(listing_id, seller),
                    )
                },
            },
    {
        if let Err(e) = self.require_initialized() {
            return Err(e);
        }
        let found = self.store.get(listing_id);
        if found.is_none() {
            return Err(MarketplaceError::ListingNotFound);
        }
        let mut listing = found.unwrap();
        if listing.seller != seller {
            return Err(MarketplaceError::NotAuthorized);
        }
        if listing.status != ListingStatus::Active {
            return Err(MarketplaceError::ListingNotActive);
        }
        listing.status = ListingStatus::Cancelled;
        self.store.put(listing_id, listing);
        self.events.push(MarketplaceEvent::ListingCancelled(listing_id, seller));
        proof {
            self.lemma_purchase_count_after_status_change(
                *old(self),
                listing_id,
                MarketplaceEvent::ListingCancelled(listing_id, seller),
            );
        }
        Ok(())
    }

    /// Reads the listing with this id; never mutates, and absence is an
    /// explicit `None`.
    pub fn get_listing(&self, listing_id: u64) -> (r: Option<Listing>)
        ensures
            r == self.spec_listing(listing_id),
    {
        self.store.get(listing_id)
    }

    /// The ids `user` has listed, in creation order; never mutates.
    pub fn get_user_listings(&self, user: u64) -> (r: Vec<u64>)
        ensures
            r@ == self.spec_user_listings(user),
    {
        self.store.seller_listings(user)
    }

    /// Sets the fee rate. `caller` is the authenticated caller and must be
    /// the owner.
    pub fn update_marketplace_fee(&mut self, caller: u64, new_fee: u32) -> (r: Result<
        (),
        MarketplaceError,
    >)
        requires
            old(self).wf(),
            new_fee <= 10000,
        ensures
            final(self).wf(),
            match old(self).spec_config() {
                None => r == Err::<(), MarketplaceError>(MarketplaceError::NotInitialized)
                    && final(self).unchanged(*old(self)),
                Some(c) => if caller != c.owner {
                    r == Err::<(), MarketplaceError>(MarketplaceError::NotAuthorized) && final(self).unchanged(*old(self))
                } else {
                    &&& r == Ok::<(), MarketplaceError>(())
                    &&& final(self).spec_config() == Some(
                        MarketplaceConfig { fee_bps: new_fee, ..c },
                    )
                    &&& final(self).listings() == old(self).listings()
                    &&& final(self).spec_next_id() == old(self).spec_next_id()
                    &&& final(self).spec_events() == old(self).spec_events()
                    &&& forall|s: u64|
                        #[trigger] final(self).spec_user_listings(s) == old(self).spec_user_listings(s)
                },
            },
    {
        if let Err(e) = self.require_initialized() {
            return Err(e);
        }
        let cfg = self.config.unwrap();
        if caller != cfg.owner {
            return Err(MarketplaceError::NotAuthorized);
        }
        self.config = Some(MarketplaceConfig { fee_bps: new_fee, ..cfg });
        proof {
            self.lemma_purchase_count_unchanged(*old(self));
        }
        Ok(())
    }

    /// Sets the treasury. `caller` is the authenticated caller and must be
    /// the owner.
    pub fn update_treasury(&mut self, caller: u64, new_treasury: u64) -> (r: Result<
        (),
        MarketplaceError,
    >)
        requires
            old(self).wf(),
        ensures
            final(self).wf(),
            match old(self).spec_config() {
                None => r == Err::<(), MarketplaceError>(MarketplaceError::NotInitialized)
                    && final(self).unchanged(*old(self)),
                Some(c) => if caller != c.owner {
                    r == Err::<(), MarketplaceError>(MarketplaceError::NotAuthorized) && final(self).unchanged(*old(self))
                } else {
                    &&& r == Ok::<(), MarketplaceError>(())
                    &&& final(self).spec_config() == Some(
                        MarketplaceConfig { treasury: new_treasury, ..c },
                    )
                    &&& final(self).listings() == old(self).listings()
                    &&& final(self).spec_next_id() == old(self).spec_next_id()
                    &&& final(self).spec_events() == old(self).spec_events()
                    &&& forall|s: u64|
                        #[trigger] final(self).spec_user_listings(s) == old(self).spec_user_listings(s)
                },
            },
    {
        if let Err(e) = self.require_initialized() {
            return Err(e);
        }
        let cfg = self.config.unwrap();
        if caller != cfg.owner {
            return Err(MarketplaceError::NotAuthorized);
        }
        self.config = Some(MarketplaceConfig { treasury: new_treasury, ..cfg });
        proof {
            self.lemma_purchase_count_unchanged(*old(self));
        }
        Ok(())
    }

    /// Hands the marketplace to a new owner and logs an
    /// `OwnershipTransferred` event. `caller` is the authenticated caller
    /// and must be the current owner.
    pub fn transfer_ownership(&mut self, caller: u64, new_owner: u64) -> (r: Result<
        (),
        MarketplaceError,
    >)
        requires
            old(self).wf(),
        ensures
            final(self).wf(),
            match old(self).spec_config() {
                None => r == Err::<(), MarketplaceError>(MarketplaceError::NotInitialized)
                    && final(self).unchanged(*old(self)),
                Some(c) => if caller != c.owner {
                    r == Err::<(), MarketplaceError>(MarketplaceError::NotAuthorized) && final(self).unchanged(*old(self))
                } else {
                    &&& r == Ok::<(), MarketplaceError>(())
                    &&& final(self).spec_config() == Some(
                        MarketplaceConfig { owner: new_owner, ..c },
                    )
                    &&& final(self).listings() == old(self).listings()
                    &&& final(self).spec_next_id() == old(self).spec_next_id()
                    &&& final(self).spec_events() == old(self).spec_events().push(
                        MarketplaceEvent::OwnershipTransferred(c.owner, new_owner),
                    )
                    &&& forall|s: u64|
                        #[trigger] final(self).spec_user_listings(s) == old(self).spec_user_listings(s)
                },
            },
    {
        if let Err(e) = self.require_initialized() {
            return Err(e);
        }
        let cfg = self.config.unwrap();
        if caller != cfg.owner {
            return Err(MarketplaceError::NotAuthorized);
        }
        self.config = Some(MarketplaceConfig { owner: new_owner, ..cfg });
        self.events.push(MarketplaceEvent::OwnershipTransferred(cfg.owner, new_owner));
        proof {
            assert forall|id: u64|
                #[trigger] purchase_events_for(self.spec_events(), id) == if self.spec_sold(id) {
                    1nat
                } else {
                    0nat
                } by {
                lemma_purchase_events_push(
                    old(self).spec_events(),
                    MarketplaceEvent::OwnershipTransferred(cfg.owner, new_owner),
                    id,
                );
                assert(purchase_events_for(old(self).spec_events(), id) == if old(self).spec_sold(
                    id,
                ) {
                    1nat
                } else {
                    0nat
                });
            }
        }
        Ok(())
    }

    /// The configured fee rate in basis points, or the documented default
    /// of 250 (2.5%) before initialization.
    pub fn get_marketplace_fee(&self) -> (r: u32)
        ensures
            r == match self.spec_config() {
                Some(c) => c.fee_bps,
                None => 250u32,
            },
    {
        match &self.config {
            Some(c) => c.fee_bps,
            None => 250,
        }
    }

    /// The treasury, or `None` before initialization.
    pub fn get_treasury(&self) -> (r: Option<u64>)
        ensures
            r == match self.spec_config() {
                Some(c) => Some(c.treasury),
                None => None::<u64>,
            },
    {
        match &self.config {
            Some(c) => Some(c.treasury),
            None => None,
        }
    }

    /// The owner, or `None` before initialization.
    pub fn get_owner(&self) -> (r: Option<u64>)
        ensures
            r == match self.spec_config() {
                Some(c) => Some(c.owner),
                None => None::<u64>,
            },
    {
        match &self.config {
            Some(c) => Some(c.owner),
            None => None,
        }
    }

    /// Whether `initialize` has run.
    pub fn is_initialized(&self) -> (r: bool)
        ensures
            r == self.spec_initialized(),
    {
        self.config.is_some()
    }

    /// The event log, oldest first.
    pub fn events(&self) -> (r: &Vec<MarketplaceEvent>)
        ensures
            r@ == self.spec_events(),
    {
        &self.events
    }

    /// Fails with `NotInitialized` before `initialize` has run; succeeds
    /// and decides nothing else afterwards.
    fn require_initialized(&self) -> (r: Result<(), MarketplaceError>)
        ensures
            r == if self.spec_initialized() {
                Ok::<(), MarketplaceError>(())
            } else {
                Err::<(), MarketplaceError>(MarketplaceError::NotInitialized)
            },
    {
        if self.config.is_some() {
            Ok(())
        } else {
            Err(MarketplaceError::NotInitialized)
        }
    }

    /// Monotonic ids: a well-formed marketplace stores exactly the listings
    /// with ids from 1 up to, and excluding, the next id — so ids start at
    /// 1, rise by one per successful creation (see `create_listing`), and
    /// are never reused or skipped — and every record carries its own id.
    pub proof fn lemma_monotonic_ids(&self, id: u64)
        requires
            self.wf(),
        ensures
            self.spec_listing(id) is Some <==> 1 <= id < self.spec_next_id(),
            self.spec_listing(id) matches Some(l) ==> l.id == id,
    {
        if 1 <= id && id <= self.listings().len() {
            assert(self.listings()[id - 1].id == id);
        }
    }

    /// Exactly-once settlement, as bookkeeping: the event log holds exactly
    /// one `ListingPurchased` record for a sold listing and none for any
    /// other id, so no listing is ever settled twice. Which transfers a
    /// single settlement performs is pinned by `purchase_listing`'s
    /// contract.
    pub proof fn lemma_exactly_once_settlement(&self, id: u64)
        requires
            self.wf(),
        ensures
            purchase_events_for(self.spec_events(), id) == if self.spec_sold(id) {
                1nat
            } else {
                0nat
            },
    {
    }

    /// The purchase-count bookkeeping of `wf` carries over unchanged when
    /// neither the listings nor the event log moved.
    proof fn lemma_purchase_count_unchanged(&self, pre: AdvancedMarketplace)
        requires
            pre.wf(),
            self.spec_events() == pre.spec_events(),
            self.listings() == pre.listings(),
        ensures
            forall|id: u64|
                #[trigger] purchase_events_for(self.spec_events(), id) == if self.spec_sold(id) {
                    1nat
                } else {
                    0nat
                },
    {
        assert forall|id: u64|
            #[trigger] purchase_events_for(self.spec_events(), id) == if self.spec_sold(id) {
                1nat
            } else {
                0nat
            } by {
            assert(purchase_events_for(pre.spec_events(), id) == if pre.spec_sold(id) {
                1nat
            } else {
                0nat
            });
        }
    }
}

} // verus!
