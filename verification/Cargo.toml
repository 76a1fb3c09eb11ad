[package]
name = "data_resolver"
version = "0.1.0"
edition = "2021"
publish = false

[dependencies]
sql = "*"
futures = "*"
tokio = { version = "*", features = ["rt-multi-thread", "macros", "sync", "time"] }
tower-service = "*"
