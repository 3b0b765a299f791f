[package]
name = "p2phandshake"
version = "0.1.0"
edition = "2021"
publish = false

[dependencies]
alloy-rlp = "0.3"
clap = { version = "4", features = ["derive"] }
futures = "0.3"
log = "0.4"
reth-ecies = "*"
reth-eth-wire = "*"
reth-network-peers = "*"
secp256k1 = { version = "0.29", features = ["global-context", "rand-std"] }
thiserror = "1"
tokio = { version = "1", features = ["net", "time", "macros", "rt-multi-thread"] }
