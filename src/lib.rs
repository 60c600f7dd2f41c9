//! A creator-tipping ledger: creators publish content, supporters tip it, and
//! each tip is split between the platform treasury, the creator and a bonus
//! pool for the first supporters of that content.
//!
//! The library decides; the ledger it runs on moves value. Every operation
//! either fails and leaves its records untouched, or succeeds, updates them and
//! (for a tip) hands back the transfers that the ledger must perform.

pub mod constants;
pub mod errors;
pub mod state;
pub mod tip;
pub mod instructions;
