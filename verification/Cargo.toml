[package]
name = "phrasedj"
version = "0.1.0"
edition = "2021"
publish = false

[dependencies]
uuid = { version = "=1.29.0", features = ["v4"] }
num_cpus = "=1.17.0"
rusqlite = { version = "=0.41.1", features = ["bundled"] }
toml = "=1.1.8"
serde = { version = "=1.0.229", features = ["derive"] }
serde_json = "=1.0.154"
directories = "=6.0.0"
hound = "=3.5.1"
tokio = { version = "=1.54.1", features = ["rt-multi-thread", "sync", "macros"] }
async-broadcast = "=0.7.2"
tracing = "=0.1.44"
tracing-subscriber = { version = "0.3", features = ["env-filter", "fmt"] }
futures-util = "=0.3.34"
reqwest = { version = "=0.12.28", default-features = false, features = ["rustls-tls", "stream"] }
midir = "=0.11.1"
ort = { version = "2.0.0-rc.10", default-features = false, features = ["ndarray", "load-dynamic"] }
ndarray = "0.16"
