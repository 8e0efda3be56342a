[package]
name = "file_context"
version = "0.1.0"
edition = "2021"
rust-version = "1.95"
publish = false

[dependencies]
clap = { version = "=4.6.7", features = ["derive"] }
glob = "=0.3.4"
kstring = "=2.0.2"
liquid = "=0.26.11"
serde = { version = "=1.0.229", features = ["derive"] }
