[package]
name = "deez"
version = "0.1.0"
edition = "2021"
publish = false

[dependencies]
anyhow = "*"
clap = { version = "*", features = ["derive"] }
clap-verbosity-flag = "*"
edit = "*"
futures-lite = "*"
tokio = { version = "*", features = ["rt-multi-thread", "macros"] }
