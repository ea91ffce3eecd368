[package]
name = "cquisitor"
version = "0.1.0"
edition = "2021"
publish = false

[dependencies]
cardano-serialization-lib = { version = "=17.0.0", default-features = false }
hex = "=0.4.3"
minicbor = { version = "=0.24.4", features = ["std", "half"] }
pallas-addresses = "=0.35.1"
pallas-codec = "=0.35.1"
pallas-primitives = "=0.35.1"
pallas-traverse = "=0.35.1"
serde = { version = "=1.0.229", features = ["derive"] }
serde_json = "=1.0.154"
uplc = "=1.1.24"
