[package]
name = "raft_mem_coordination"
version = "0.1.0"
edition = "2021"
publish = false

[dependencies]
openraft = { version = "0.9", features = ["serde"] }
rcgen = "0.13"
rustls-pemfile = "2"
tokio-rustls = { version = "0.26", default-features = false, features = ["ring", "tls12", "logging"] }
actix-web = { version = "4", features = ["rustls-0_23"] }
reqwest = { version = "0.12", default-features = false, features = ["json", "rustls-tls"] }
serde = { version = "1", features = ["derive"] }
serde_yaml = "0.9"
tracing = "0.1"
tracing-subscriber = { version = "0.3", features = ["env-filter"] }
