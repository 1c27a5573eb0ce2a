[package]
name = "giga_segy"
version = "0.1.0"
edition = "2021"
publish = false

[dependencies]
encoding8 = "*"
fnv = "*"
ibmfloat = "*"
memmap2 = "*"
serde = { version = "*", features = ["derive"] }
serde_json = "*"
