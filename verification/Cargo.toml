[package]
name = "automod"
version = "0.1.0"
edition = "2021"
publish = false

[dependencies]
chrono = "=0.4.45"
clap = "*"
lemmy_api_common = { version = "=0.18.2", default-features = false }
reqwest = { version = "=0.13.5", features = ["json", "query"] }
serde = { version = "*", features = ["derive"] }
tokio = { version = "*", features = ["macros", "rt-multi-thread", "time"] }
toml = "*"
tracing = "*"
tracing-subscriber = "*"
url = "*"
