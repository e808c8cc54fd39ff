[package]
name = "turbo_clicker"
version = "0.1.0"
edition = "2021"
publish = false

[dependencies]
ashpd = { version = "=0.13.13", features = ["global_shortcuts"] }
enigo = "=0.6.1"
futures-util = "=0.3.34"
serde = { version = "=1.0.229", features = ["derive"] }
serde_json = "=1.0.151"
tokio = { version = "=1.53.2", features = ["macros", "rt-multi-thread", "sync", "time"] }
