[package]
name = "poly_market_maker"
version = "0.1.0"
edition = "2021"
publish = false

[dependencies]
sha3 = "0.10"
num-bigint = "0.4"
hex = "0.4"
rand = "0.8"
serde = { version = "1", features = ["derive"] }
serde_json = "1"
tokio = { version = "1", features = ["rt-multi-thread", "macros", "time", "signal", "sync"] }
reqwest = { version = "0.11", default-features = false, features = ["json"] }
ethers = { version = "2", default-features = false }
prometheus = { version = "0.13", default-features = false }
clap = { version = "4", default-features = false, features = ["derive", "std", "help", "usage"] }
env_logger = { version = "0.10", default-features = false }
log = "0.4"
anyhow = "1"
async-trait = "0.1"
lazy_static = "1"
