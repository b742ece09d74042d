[package]
name = "attestation_agent"
version = "0.1.0"
edition = "2021"
publish = false

[dependencies]
aes = "0.8"
aes-gcm = "0.10"
anyhow = "1"
async-trait = "0.1"
base64 = "0.21"
ctr = "0.9"
jwt-simple = { version = "0.12", default-features = false, features = ["pure-rust"] }
log = "0.4"
nix = "0.26"
rand = "0.8"
reqwest = { version = "0.11", default-features = false }
serde = { version = "1", features = ["derive"] }
serde_json = "1"
tokio = { version = "1", features = ["fs", "rt", "macros"] }
ttrpc = "*"
uuid = { version = "1", features = ["v4"] }
