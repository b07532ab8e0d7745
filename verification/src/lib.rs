//! Accounting core of a crowdfunding fund-custody ledger.
//!
//! Creators register campaigns, donors pledge funds that are held in escrow
//! for a campaign, and creators withdraw escrowed funds subject to a platform
//! fee. This crate holds the records and the rules that govern them; moving
//! currency, storing records and telling the time are left to the runtime that
//! drives it.

pub mod constants;
pub mod errors;
pub mod identity;
pub mod instructions;
pub mod laws;
pub mod campaign;
pub mod program_state;
pub mod transaction;
