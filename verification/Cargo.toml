[package]
name = "scam_ico"
version = "0.1.0"
edition = "2021"
publish = false

[dependencies]
web3 = { version = "0.10", default-features = false, features = ["http"] }
ethabi = "9"
ethsign = "0.8"
rlp = "0.4"
tiny-keccak = "1.5"
serde = { version = "1", features = ["derive"] }
serde_json = "1"
structopt = "0.3"
termion = "1.5"
tui = "0.8"
thiserror = "1"
tiny-bip39 = "0.8"
