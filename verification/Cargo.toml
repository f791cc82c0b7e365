[package]
name = "gitlobster"
version = "0.1.0"
edition = "2021"
publish = false

[dependencies]
anyhow = "*"
chrono = "*"
clap = { version = "*", features = ["derive", "env"] }
futures = "*"
pbr = "*"
regex = "*"
reqwest = { version = "*", default-features = false, features = ["json"] }
serde = { version = "*", features = ["derive"] }
tokio = { version = "*", features = ["macros", "process", "rt-multi-thread", "sync"] }
tracing = "*"
tracing-subscriber = "*"
url = "*"
urlencoding = "*"
