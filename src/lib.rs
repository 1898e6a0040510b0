//! A fungible-token ledger: balances, delegated allowances that lapse after a ledger
//! sequence number, and one administrator who mints and hands the role on.
//!
//! The host's services enter as values: `token::Env` carries the current ledger
//! sequence and the principals whose authorization the host has verified, and each
//! successful operation returns the event to publish.
use vstd::prelude::*;

pub mod allowance;
pub mod amount;
pub mod laws;
pub mod store;
pub mod token;

verus! {

} // verus!
