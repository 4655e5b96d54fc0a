//! Ledger of platform-signed channel consumption.
//!
//! A platform signs, as EIP-712 typed data, how much of a channel a user has
//! consumed. The contract rebuilds the signed digest, lets the host recover
//! the signer and ask the content registry whether that signer may validate
//! consumption for the configured content, and only then adds the amount to
//! the user's running total and to the aggregate total.
//!
//! The host (storage, the `ecrecover` precompile, the call to the registry,
//! event logs) stays outside: the library computes what is handed to the host
//! and decides on what the host hands back.

pub mod contracts;
pub mod utils;
