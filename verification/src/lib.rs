//! Verified models of a collection of Soroban smart contracts and the
//! computing core of a database backup tool.
//!
//! Each contract's persistent storage is held in a plain Rust struct; every
//! entry point is a method that takes the caller's address and the ledger
//! time as arguments and states in its contract exactly how the storage
//! changes and what it returns.
use vstd::prelude::*;

pub mod common;
pub mod hashing;
pub mod bn254;
pub mod backup;
pub mod escrow;
pub mod reputation;
pub mod bounty_dispute;
pub mod carbon_credit_oracle;
pub mod subscription_manager;
pub mod energy_trading;
pub mod ad_network;
pub mod index_token;
pub mod emergency_pause;
pub mod crop_insurance;
pub mod zk_verifier;
pub mod storage_utils;
pub mod storage_demo;
pub mod vesting_pool;
pub mod cartel;
pub mod profile_registry;
pub mod vesting;
pub mod perpetual_futures;
pub mod staking_derivatives;
pub mod subscription;
pub mod supply_chain;
pub mod vc_vesting;
pub mod patent_registry;
pub mod loan_syndication;
pub mod options;
pub mod perpetuals;
pub mod stablecoin;
pub mod gaming_crafting;
pub mod payment_splitter;
pub mod music_royalty;

verus! {

} // verus!
