[package]
name = "alloy-evm"
version = "0.1.0"
edition = "2021"
publish = false

[dependencies]
alloy-consensus = { version = "1", default-features = false, features = ["std"] }
alloy-eips = { version = "1", default-features = false, features = ["std"] }
alloy-hardforks = { version = "*", default-features = false }
alloy-primitives = { version = "1", default-features = false, features = ["std"] }
op-revm = { version = "10", default-features = false, features = ["std"] }
revm = { version = "29", default-features = false, features = ["std"] }
