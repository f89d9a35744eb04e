//! Concurrent wallet balance snapshot, as a verified library.
//!
//! The library holds everything the program decides or computes: parsing the
//! configuration into a wallet list, building the JSON-RPC `getBalance`
//! request body, interpreting the reply for one address, and turning each
//! per-address result into the exact line the operator sees. The surrounding
//! binary only reads the configuration file, performs the HTTP exchanges
//! concurrently, and prints the lines the library hands back.

use vstd::prelude::*;

pub mod config;
pub mod decimal;
pub mod report;
pub mod rpc;

pub use config::ConfigError;
pub use config::parse_config;
pub use decimal::u64_to_decimal;
pub use report::Outcome;
pub use report::collect_outcomes;
pub use report::failure_line;
pub use report::outcome_for;
pub use report::success_line;
pub use rpc::FetchError;
pub use rpc::balance_request_body;
pub use rpc::interpret_reply;
pub use rpc::rpc_url;

verus! {

/// Smallest on-chain units per whole display unit.
pub const LAMPORTS_PER_SOL: u64 = 1_000_000_000;

} // verus!
