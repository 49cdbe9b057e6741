[package]
name = "tripwired"
version = "0.1.0"
edition = "2021"
publish = false

[dependencies]
regex = "=1.13.1"
reqwest = { version = "*", default-features = false, features = ["json"] }
serde = { version = "*", features = ["derive"] }
serde_json = "*"
sha2 = "*"
tokio = { version = "*", features = ["rt-multi-thread", "net", "io-util", "macros", "sync", "time"] }
toml = "*"
clap = { version = "*", features = ["derive"] }
tracing = "*"
tracing-subscriber = { version = "*", features = ["env-filter", "fmt"] }
