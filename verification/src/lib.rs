//! Escrow-based state machine behind a peer-to-peer marketplace for
//! non-fungible assets: direct listings, balance-backed offers, and English
//! auctions with anti-snipe extension.
//!
//! Every operation is a single, atomic, all-or-nothing step: a failed call
//! returns a named error and leaves every record, purse and token untouched.

pub mod assoc;
pub mod errors;
pub mod hexenc;
pub mod keys;
pub mod laws;
pub mod ledger;
pub mod marketplace;
pub mod registry;
pub mod store;

pub use errors::Error;
pub use keys::{get_listing_key, get_offer_key};
pub use ledger::Ledger;
pub use marketplace::{AuctionData, ListingData, Marketplace, OfferData, PurseName};
pub use registry::Registry;
pub use store::{Slot, Store};
