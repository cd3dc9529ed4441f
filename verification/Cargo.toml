[package]
name = "raft_core"
version = "0.1.0"
edition = "2021"
publish = false

[dependencies]
async-trait = "*"
axum = "*"
dotenv = "*"
env_logger = "*"
hyper = "*"
log = "*"
serde = { version = "*", features = ["derive"] }
shaku = "*"
tokio = { version = "*", features = ["rt-multi-thread", "macros", "time", "sync", "net"] }
tower-http = { version = "*", features = ["cors"] }
