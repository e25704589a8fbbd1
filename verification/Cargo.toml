[package]
name = "block_execution"
version = "0.1.0"
edition = "2021"
publish = false

[dependencies]
alloy-consensus = { version = "0.4", default-features = false, features = ["std"] }
alloy-primitives = { version = "0.8", default-features = false, features = ["std"] }
revm = { version = "14", default-features = false, features = ["std"] }
revm-primitives = { version = "10", default-features = false, features = ["std"] }

[dev-dependencies]
alloy-eips = { version = "0.4", default-features = false, features = ["std"] }
