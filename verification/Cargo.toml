[package]
name = "cluster_noodle"
version = "0.1.0"
edition = "2021"
publish = false

[dependencies]
clap = { version = "*", features = ["derive"] }
dirs = "*"
dotenvy = "*"
envy = "*"
serde = { version = "*", features = ["derive"] }
serde_yaml = "*"
