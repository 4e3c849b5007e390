[package]
name = "chbackup"
version = "0.1.0"
edition = "2021"
publish = false

[dependencies]
async-trait = "0.1"
chrono = "0.4"
clap = { version = "4", features = ["derive", "env"] }
eyre = "0.6"
serde = { version = "1", features = ["derive"] }
thiserror = "1"
tracing = "0.1"
