[package]
name = "bench_bootstrap"
version = "0.1.0"
edition = "2021"
publish = false

[dependencies]
clap = { version = "4.1.4", features = ["derive", "env"] }
tokenizers = { version = "0.13.3", features = ["http"] }
tokio = { version = "1.25.0", features = ["rt", "rt-multi-thread", "parking_lot", "signal", "sync", "macros"] }
tracing = "0.1.37"
tracing-subscriber = { version = "0.3.16", features = ["json", "env-filter"] }
