[package]
name = "mirror_fleet"
version = "0.1.0"
edition = "2021"
publish = false

[dependencies]
anyhow = "=1.0.104"
futures = "=0.3.34"
mongodb = "=3.9.1"
serde = { version = "=1.0.229", features = ["derive"] }
takecell = "=0.1.1"
teloxide = "=0.17.0"
tokio = { version = "=1.53.2", features = ["macros", "rt-multi-thread", "signal"] }
