[package]
name = "mctl"
version = "0.1.0"
edition = "2021"
publish = false

[dependencies]
age = { version = "=0.11.5", features = ["armor"] }
bech32 = "=0.9.1"
x25519-dalek = "=2.0.1"
blake3 = "=1.8.7"
rand = "=0.9.5"
dirs = "=6.0.0"
zeroize = "=1.9.1"
clap = { version = "=4.6.7", features = ["derive"] }
clap_complete = "=4.6.11"
clap_mangen = "=0.2.33"
color-eyre = "=0.6.5"
eyre = "=0.6.14"
tracing = "=0.1.44"
tracing-subscriber = { version = "=0.3.23", features = ["env-filter"] }
serde = { version = "=1.0.229", features = ["derive"] }
config = { version = "=0.15.27", default-features = false, features = ["toml"] }

[dev-dependencies]
tempfile = "=3.27.0"
