[package]
name = "tx_replay"
version = "0.1.0"
edition = "2021"
publish = false

[dependencies]
dotenv = "=0.15.0"
ethers-core = "=2.0.14"
ethers-providers = { version = "=2.0.14", features = ["ws"] }
eyre = "=0.6.14"
reqwest = { version = "=0.11.27", default-features = false, features = ["rustls-tls"] }
revm = { version = "=3.3.0", default-features = false, features = ["std", "ethersdb"] }
# Holds revm 3.3.0 to the line of its primitives crate that it compiles against.
revm-primitives = { version = "=1.1.2", default-features = false }
tokio = { version = "=1.54.1", features = ["macros", "rt-multi-thread", "sync"] }
