[package]
name = "privacy_prove"
version = "0.1.0"
edition = "2021"
publish = false

[dependencies]
cairo-air = "=1.3.0"
cairo-vm = "=3.2.0"
serde_json = "=1.0.154"
starknet-types-core = { version = "=0.2.4", features = ["serde"] }
stwo = "=2.3.0"
stwo-cairo-adapter = "=1.3.0"
stwo-cairo-common = "=1.3.0"
stwo-circuit-cairo-verifier = "=1.0.0"
stwo-circuit-common = "=1.0.0"
stwo-circuit-serialize = "=1.0.0"
stwo-circuit-verifier = "=1.0.0"
stwo-circuits-core = "=1.0.0"
stwo-circuits-stark-verifier = "=1.0.0"
tempfile = "=3.27.0"
tracing = "=0.1.44"
zstd = "=0.14.3"
