//! Building blocks: byte values, hashing, the ABI layout, EIP-712.

pub mod eip712;
pub mod errors;
pub mod hashing;
pub mod primitives;
pub mod solidity;
