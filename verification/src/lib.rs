//! Watches Solana liquidity-pool programs, decodes raw pool accounts,
//! classifies the tokens on each side against a safety policy, aggregates
//! short-horizon trading activity, and assembles enriched alerts that a
//! batching file sink persists as JSON lines.

pub mod decoders;
pub mod enrich;
pub mod extensions;
pub mod hype;
pub mod liq;
pub mod markdown;
pub mod mint_reader;
pub mod policy;
pub mod report;
pub mod sim;
pub mod sink;
pub mod types;
pub mod util;
pub mod watcher;
