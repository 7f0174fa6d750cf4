[package]
name = "gossip_lab"
version = "0.1.0"
edition = "2021"
publish = false

[dependencies]
anyhow = "1"
async-trait = "0.1"
blake3 = "=1.8.7"
bytes = "1"
clap = { version = "4", default-features = false, features = ["std", "derive", "help", "usage", "error-context"] }
hex = "=0.4.3"
iroh = "=1.4.1"
iroh-gossip = "=0.101.0"
iroh-mdns-address-lookup = "*"
postcard = { version = "=1.1.3", default-features = false, features = ["alloc"] }
rand = "=0.9.5"
serde = { version = "1", features = ["derive"] }
serde_json = "1"
tokio = { version = "1", features = ["macros", "rt-multi-thread", "sync", "time"] }
tokio-stream = "0.1"
tracing = "0.1"
tracing-subscriber = { version = "0.3", default-features = false, features = ["env-filter", "fmt", "std"] }
