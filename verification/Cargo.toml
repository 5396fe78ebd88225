[package]
name = "conjak_numbers"
version = "0.1.0"
edition = "2021"
publish = false

[dependencies]
num-bigint = "0.4"
num-traits = "0.2"
serde = { version = "1", features = ["derive"] }
ciborium = "0.2"
anyhow = "1"
chinese-lunisolar-calendar = "*"
typst-wasm-protocol = "*"
