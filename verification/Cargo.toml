[package]
name = "blocking_mpsc"
version = "0.1.0"
edition = "2021"
publish = false

[dependencies]
futures = "0.3"
tokio = { version = "0.2", default-features = false, features = ["sync"] }

[dev-dependencies]
tokio = { version = "0.2", default-features = false, features = ["sync", "rt-threaded", "blocking"] }
