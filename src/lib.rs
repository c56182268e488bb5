//! A custody bridge for a restricted token: it locks the restricted asset in
//! per-asset vaults and issues a freely tradable claim token one for one,
//! and it enforces the asset's whitelist through the transfer hook interface
//! that the token runtime calls during every transfer.
//!
//! - `vault`: wrap and unwrap, as state transitions plus the token calls to make
//! - `admin`: the authority's changes to the bridge configuration
//! - `whitelist`: the whitelist record, its management and the transfer check
//! - `dispatch`: the interface entry point the runtime calls with raw bytes
//! - `resolution`: how an extra-account descriptor's seeds are resolved
//! - `ledger`: the token calls a plan holds and their effect on balances
//! - `interface`: what the library relies on from the token libraries

use vstd::prelude::*;

pub mod admin;
pub mod dispatch;
pub mod error;
pub mod interface;
pub mod ledger;
pub mod pubkey;
pub mod resolution;
pub mod state;
pub mod vault;
pub mod whitelist;

verus! {

} // verus!
