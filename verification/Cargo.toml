[package]
name = "js_engine"
version = "0.1.0"
edition = "2021"
publish = false

[dependencies]
anyhow = "1"
async-trait = "0.1"
atty = "0.2"
flume = "0.10"
itertools = "0.10"
reqwest = { version = "0.11", default-features = false, features = ["json"] }
rquickjs = { version = "0.1", features = ["macro", "tokio", "futures", "parallel"] }
serde = { version = "1", features = ["derive"] }
serde_json = { version = "1", features = ["preserve_order"] }
snafu = "0.7"
tokio = { version = "1", features = ["rt-multi-thread", "time"] }
tracing = "0.1"
