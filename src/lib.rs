//! Governance and treasury core of a community ledger: community configuration, the
//! proposal lifecycle and its vote tally, the treasury gate, the transfer-fee split, and the
//! member, event, card, connection and payment-request records around them. Every operation
//! validates fully before it changes anything, and reports exactly which check failed.

use vstd::prelude::*;

pub mod community;
pub mod error;
pub mod events;
pub mod governance;
pub mod member;
pub mod nfc;
pub mod payment;
pub mod pubkey;
pub mod social;
pub mod text;
pub mod token;
pub mod treasury;

verus! {

} // verus!
