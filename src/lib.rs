//! A two-party token escrow: one party locks tokens in a custodial account
//! controlled by a program-derived authority, and a counterparty later
//! settles by paying the requested amount and receiving the held tokens.
//!
//! The library decides; the host ledger moves tokens. Each operation checks
//! its accounts and amounts, updates the trade record, and hands back the
//! token transfers that the host performs in the same atomic unit.

pub mod address;
pub mod escrow;
pub mod laws;
pub mod ledger;
pub mod record;
