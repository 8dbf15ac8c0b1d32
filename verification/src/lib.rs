//! Verified models of a family of ledger contracts.
//!
//! The centrepiece is an asset marketplace: sellers list an asset for a fixed
//! price, buyers purchase it through an escrowed, fee-splitting settlement,
//! and every listing moves through an explicit lifecycle
//! (active, then sold, cancelled or expired) that no operation may rewind.
//!
//! Around it stand smaller contracts of the same family — tokens with a
//! pause switch, a blocklist or stacked guards, an NFT registry with named
//! roles, an owned counter, and a proposal vote — each a verified state
//! machine of its own.
//!
//! Host concerns (durable storage, caller authentication, the clock, and the
//! token transfers themselves) stay outside: every operation takes the
//! authenticated caller and the current time as plain arguments, and the
//! settlement legs of a purchase go through a transfer service supplied by
//! the caller as a closure. The contracts of this crate pin down, for every
//! input, which result each operation returns and how it changes the state.
//! Principals and asset references are plain `u64` identifiers that the
//! host resolves to real accounts.

pub mod access_nft;
pub mod blocklist;
pub mod bytes;
pub mod counter;
pub mod fees;
pub mod hello;
pub mod listing;
pub mod lsp;
pub mod marketplace;
pub mod multi_token;
pub mod pausable;
pub mod roles;
pub mod simple_token;
pub mod store;
pub mod table;
pub mod voting;
