//! A two-party escrow core: a buyer deposits funds against a pending deal and
//! later releases them to the seller, with the deposit held in a custody
//! record whose address is a deterministic function of the deal's parties and
//! a caller-supplied identifier.
//!
//! The library verifies the lifecycle state machine of one custody record
//! (Created, Funded, Released), the authorization and derivation checks that
//! guard each transition, and the balance arithmetic that moves funds. The
//! host ledger's own mechanics (account lookup, storage allocation, signature
//! verification) are supplied by the caller as plain attested values.

pub mod address;
pub mod codec;
pub mod deal;
pub mod encode;
pub mod escrow;
pub mod identity;
pub mod laws;

pub use address::{derive_record_address, verify_record_address};
pub use deal::{Deal, DealState};
pub use escrow::{create_deal, fund_escrow, release_escrow};
pub use escrow::{CreateDeal, EscrowError, FundEscrow, ReleaseEscrow};
pub use identity::AccountId;
