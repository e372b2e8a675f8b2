[package]
name = "discord_bot"
version = "0.1.0"
edition = "2021"
publish = false

[dependencies]
oxford_join = "=0.8.0"
serde = { version = "=1.0.229", features = ["derive"] }
serde_json = "=1.0.151"
tokio = { version = "=1.53.2", features = ["rt-multi-thread", "macros", "time", "process", "signal", "net"] }
rcon = { version = "=0.6.0", features = ["rt-tokio"] }
reqwest = { version = "=0.12.28", default-features = false, features = ["json"] }
