//! Verified decision logic of the HPOS holochain tooling.
use vstd::prelude::*;

pub mod admin;
pub mod agent;
pub mod app_policy;
pub mod cells;
pub mod chc;
pub mod core_app_cli;
pub mod env_setup;
pub mod hashes;
pub mod hha_types;
pub mod holofuel;
pub mod holofuel_cli;
pub mod host_keys;
pub mod install;
pub mod jurisdiction;
pub mod memproof;
pub mod nonce;
pub mod panic_payload;
pub mod publishing;
pub mod restore;
pub mod role_names;
pub mod text;
pub mod time_buckets;
pub mod ui;

verus! {

} // verus!
