[package]
name = "mango"
version = "0.1.0"
edition = "2021"
publish = false

[dependencies]
anyhow = "=1.0.104"
async-trait = "=0.1.92"
reqwest = { version = "=0.12.28", default-features = false, features = ["rustls-tls"] }
serde = { version = "=1.0.229", features = ["derive"] }
serde_json = "=1.0.154"
sha2 = "=0.10.9"
# Nothing here calls takecell. teloxide depends on it, and its next version, 0.1.2,
# asks for Rust 1.96.
takecell = "=0.1.1"
teloxide = { version = "=0.17.0", default-features = false, features = ["rustls"] }
thiserror = "=2.0.21"
tokio = { version = "=1.54.1", features = ["io-util", "macros", "process", "rt", "sync", "time"] }
tokio-stream = { version = "=0.1.19", features = ["sync"] }
toml = "=0.8.23"
uuid = { version = "=1.29.0", features = ["v4"] }
wasmtime = { version = "=36.0.20", default-features = false, features = ["cranelift", "runtime", "std"] }

[dev-dependencies]
wat = "=1.263.0"
