[package]
name = "pixi_diff_cli"
version = "0.1.0"
edition = "2021"
publish = false

[dependencies]
clap = { version = "4", features = ["derive"] }
clap-verbosity-flag = { version = "3", features = ["tracing"] }
miette = { version = "7", features = ["fancy"] }
rattler_lock = "*"
serde_json = "1"
tracing = "0.1"
tracing-subscriber = "0.3"
