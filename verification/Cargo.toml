[package]
name = "enroll"
version = "0.5.5"
edition = "2021"
publish = false

[dependencies]
zbus = "5"
futures-util = "0.3"
tokio = { version = "1", features = ["rt-multi-thread", "macros"] }
open = "5"
serde = { version = "1", features = ["derive"] }
tracing = "0.1"
