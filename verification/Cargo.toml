[package]
name = "execution_layer"
version = "0.1.0"
edition = "2021"
publish = false

[dependencies]
lru = "=0.12.5"
tokio = { version = "=1.54.1", features = ["sync", "rt"] }
tokio-stream = { version = "=0.1.19", features = ["sync"] }
ssz_types = "=0.5.4"
safe_arith = "=0.1.0"
slog = "=2.8.2"
reqwest = { version = "=0.11.27", default-features = false, features = ["json"] }
serde = { version = "=1.0.229", features = ["derive"] }
sensitive_url = "=0.1.0"
