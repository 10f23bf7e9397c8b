[package]
name = "op_txpool"
version = "0.1.0"
edition = "2021"
publish = false

[dependencies]
alloy-consensus = "0.11"
alloy-eips = "0.11"
alloy-primitives = "0.8"
op-alloy-consensus = "0.10"
op-alloy-flz = "0.10"
parking_lot = "0.12"
revm = { version = "19", default-features = false, features = ["std", "optimism"] }
