//! The listing record, its lifecycle states, and the marketplace's error and
//! event types.
//!
//! Principals (sellers, buyers, the owner, the treasury) and asset
//! references (token contracts, currencies) are plain `u64` identifiers:
//! the host that runs the marketplace authenticates callers and resolves
//! identifiers to real accounts, while every rule about them lives here.

use vstd::prelude::*;

verus! {

/// Status of a marketplace listing. `Active` is the only state that any
/// operation may leave; the other three are terminal.
#[derive(Clone, Copy, Debug, PartialEq, Eq, Structural)]
pub enum ListingStatus {
    Active,
    Sold,
    Cancelled,
    Expired,
}

impl ListingStatus {
    /// Whether this status is terminal: no operation changes a listing
    /// whose status is terminal.
    pub open spec fn is_terminal(self) -> bool {
        self != ListingStatus::Active
    }
}

/// A marketplace listing. Everything but `status` is fixed at creation.
#[derive(Clone, Copy, Debug, PartialEq, Eq, Structural)]
pub struct Listing {
    pub id: u64,
    pub seller: u64,
    pub token_contract: u64,
    pub token_id: u64,
    pub price: i128,
    pub currency: u64,
    pub status: ListingStatus,
    pub created_at: u64,
    pub expires_at: u64,
}

impl Listing {
    /// The same listing with another status; every other field kept.
    pub open spec fn with_status(self, status: ListingStatus) -> Listing {
        Listing { status, ..self }
    }

    /// The record invariant established at creation: a positive price and a
    /// validity window that ends strictly after it begins.
    pub open spec fn well_formed(self) -> bool {
        &&& self.price > 0
        &&& self.created_at < self.expires_at
    }
}

/// Marketplace error types: the closed taxonomy that every fallible
/// operation reports its failures through.
#[derive(Clone, Copy, Debug, PartialEq, Eq, PartialOrd, Ord, Structural)]
pub enum MarketplaceError {
    NotAuthorized,
    ListingNotFound,
    ListingNotActive,
    InsufficientFunds,
    InvalidPrice,
    TokenTransferFailed,
    ListingExpired,
    AlreadyInitialized,
    NotInitialized,
    InvalidDuration,
}

/// Marketplace events, appended in order to the event log and never removed.
#[derive(Clone, Copy, Debug, PartialEq, Eq, Structural)]
pub enum MarketplaceEvent {
    /// listing id, seller, token contract, token id, price
    ListingCreated(u64, u64, u64, u64, i128),
    /// listing id, seller
    ListingCancelled(u64, u64),
    /// listing id, seller, buyer, price
    ListingPurchased(u64, u64, u64, i128),
    /// listing id
    ListingExpired(u64),
    /// previous owner, new owner
    OwnershipTransferred(u64, u64),
}

} // verus!
