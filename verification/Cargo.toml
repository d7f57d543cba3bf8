[package]
name = "leader_election"
version = "0.1.0"
edition = "2021"
publish = false

[dependencies]
rand = "*"
tokio = { version = "*", features = ["rt", "rt-multi-thread", "time", "sync", "macros"] }
