[package]
name = "validium_proxy"
version = "0.1.0"
edition = "2021"
publish = false

[dependencies]
alloy = { version = "=1.8.3", default-features = false, features = ["consensus", "k256", "rlp", "serde", "std"] }
alloy-network-primitives = "=1.8.3"
alloy-rlp = "=0.3.16"
alloy-rpc-types = "=1.8.3"
anyhow = "=1.0.104"
chrono = "=0.4.45"
clap = { version = "=4.6.7", features = ["derive"] }
config = { version = "=0.15.27", default-features = false, features = ["toml"] }
dashmap = "=6.2.1"
futures-util = "=0.3.34"
headers = "=0.4.2"
http = "=1.5.0"
jsonwebtoken = "=9.3.1"
moka = { version = "=0.12.16", features = ["sync"] }
rand = "=0.9.5"
serde = { version = "=1.0.229", features = ["derive"] }
serde_json = "=1.0.154"
siwe = "=0.6.1"
tokio = { version = "=1.54.1", features = ["macros", "rt-multi-thread"] }
tower = "=0.5.3"
tower-http = { version = "0.6", features = ["auth", "request-id", "sensitive-headers", "trace"] }
tracing = "=0.1.44"
tracing-subscriber = { version = "=0.3.23", features = ["env-filter"] }
