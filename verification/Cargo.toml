[package]
name = "podtender"
version = "0.5.0"
edition = "2021"
publish = false

[dependencies]
asynchronous-codec = { version = "=0.6.2", features = ["json"] }
derive_builder = "*"
futures = "=0.3.34"
hyper = { version = "=0.14.32", features = ["client", "http1", "stream", "runtime"] }
hyperlocal = "=0.8.0"
serde = { version = "=1.0.229", features = ["derive"] }
serde_json = "=1.0.154"
serde_path_to_error = "=0.1.20"
serde_qs = "=0.10.1"
thiserror = "=1.0.69"
