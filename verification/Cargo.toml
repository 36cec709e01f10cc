[package]
name = "peak-valley-price"
version = "0.1.0"
edition = "2021"
publish = false

[dependencies]
chrono = "0.4"
serde = { version = "1", features = ["derive"] }
toml = "0.8"
dirs = "5"
reqwest = { version = "0.12", default-features = false, features = ["json", "rustls-tls"] }
tokio = { version = "1", features = ["macros", "rt-multi-thread", "sync"] }
clap = { version = "4", features = ["derive"] }
thiserror = "1"
tracing = "0.1"
async-trait = "0.1"
