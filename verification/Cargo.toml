[package]
name = "channel_consumption"
version = "0.1.0"
edition = "2021"
publish = false

[dependencies]
alloy-primitives = { version = "=0.7.6", features = ["tiny-keccak"] }
alloy-sol-types = "=0.7.6"
inkmate-common = "=0.0.1"
openzeppelin-stylus = "=0.1.2"
ruint = "=1.12.3"
stylus-sdk = "=0.6.1"

[dev-dependencies]
k256 = "=0.13.4"
