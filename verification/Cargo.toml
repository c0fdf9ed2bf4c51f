[package]
name = "skarn"
version = "0.1.0"
edition = "2021"
publish = false

[dependencies]
serde = { version = "1", features = ["derive"] }
serde_json = "1"
rquickjs = { version = "*", features = ["futures"] }
tokio = { version = "1", features = ["rt", "rt-multi-thread", "time", "macros"] }
clap = { version = "4", features = ["derive"] }
clap_complete = "4"
anyhow = "1"
async-trait = "*"
