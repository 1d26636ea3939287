[package]
name = "opsgenie_client"
version = "0.1.0"
edition = "2021"
publish = false

[dependencies]
anyhow = "*"
chrono = { version = "*", features = ["serde"] }
clap = { version = "*", features = ["derive"] }
envy = "*"
reqwest = { version = "*", default-features = false, features = ["json", "rustls-tls"] }
serde = { version = "*", features = ["derive"] }
serde_json = "*"
thiserror = "*"
tokio = { version = "*", features = ["macros", "rt-multi-thread", "time"] }
tracing = "*"
tracing-subscriber = { version = "*", features = ["env-filter", "json"] }
url = { version = "*", features = ["serde"] }
vise = "*"
vise-exporter = "*"
