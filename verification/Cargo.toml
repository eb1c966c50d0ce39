[package]
name = "clia_tracing_config"
version = "0.1.0"
edition = "2021"
publish = false

[dependencies]
clia-time = { version = "*", features = ["local-offset"] }
time = { version = "*", features = ["macros", "formatting"] }
tracing-appender = "*"
tracing-subscriber = { version = "*", features = ["env-filter", "json", "time"] }
