//! A balance ledger for a trading venue.
//!
//! Every account holds, per asset, an available and a frozen balance. The
//! ledger moves value between these balances with a single transfer
//! operation whose effect on the ledger is stated exactly.

pub mod amount;
pub mod asset;
pub mod asset_service;
pub mod model;
pub mod store;
pub mod transfer;
