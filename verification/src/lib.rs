//! A Quay strategy as a routable trading venue.
//!
//! Each [`QuayVenue`] is one Quay strategy: one curve, priced by the Quay
//! pricing VM, on one `(base_mint, quote_mint)` pair. A router holds one
//! venue per active strategy. The venue is built from the strategy account,
//! refreshed every slot from a batch of accounts, priced by simulating the
//! on-chain swap, and turned into swap instructions.
//!
//! Everything here is pure: fetching accounts and talking to the router is
//! the caller's business. Addresses are plain 32-byte keys, prices are exact
//! ratios of integers.

pub mod bytes;
pub mod clock;
pub mod creation;
pub mod pubkey;
pub mod quote;
pub mod sdk;
pub mod state;
pub mod swap;
pub mod types;
pub mod venue;

pub use clock::decode_clock;
pub use creation::parse_pool_creations;
pub use pubkey::Pubkey;
pub use venue::QuayVenue;
