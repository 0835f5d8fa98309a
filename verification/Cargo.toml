[package]
name = "truyvansql"
version = "0.1.0"
edition = "2021"
publish = false

[dependencies]
thiserror = "*"
tokio = { version = "*", features = ["macros", "rt-multi-thread", "io-std", "io-util"] }
tracing = "*"
tracing-subscriber = "*"
