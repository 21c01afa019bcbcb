//! A fixed-price marketplace: sellers list items with a price and an expiry,
//! buyers purchase them before the expiry, sellers may withdraw them, and
//! anyone may inspect them. Every operation is a verified state transition.

pub mod auth;
pub mod clock;
pub mod laws;
pub mod market;
pub mod types;

pub use auth::AuthGate;
pub use market::FixedPriceAuctionContract;
pub use types::{Identity, Item, ItemStatus, MarketError};
