[package]
name = "hive_console_sdk"
version = "0.1.0"
edition = "2021"
publish = false

[dependencies]
graphql-parser = "=0.4.1"
moka = { version = "=0.12.16", features = ["future"] }
recloser = "=1.4.0"
regex-automata = "=0.4.18"
reqwest = { version = "=0.13.5", default-features = false, features = ["blocking", "json", "rustls-no-provider"] }
reqwest-middleware = "=0.5.2"
reqwest-retry = "=0.9.1"
retry-policies = "=0.5.2"
serde = { version = "=1.0.229", features = ["derive"] }
serde_json = "=1.0.154"
thiserror = "=2.0.21"
tokio = { version = "=1.54.1", features = ["macros", "rt", "rt-multi-thread", "sync", "time"] }
tokio-util = "=0.7.20"
tracing = "=0.1.44"
