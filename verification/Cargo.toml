[package]
name = "fvm_contract_ir"
version = "0.1.0"
edition = "2021"
publish = false

[dependencies]
blake2 = "0.10"
heck = "0.4"
proc-macro2 = "1"
quote = "1"
syn = { version = "1", features = ["full", "extra-traits"] }
