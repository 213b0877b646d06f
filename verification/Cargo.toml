[package]
name = "slog_async"
version = "0.1.0"
edition = "2021"
publish = false

[dependencies]
slog = { version = "=2.8.2", features = ["dynamic-keys"] }
thread_local = "=1.1.10"
