[package]
name = "oboete"
version = "0.1.0"
edition = "2021"
publish = false

[dependencies]
percent-encoding = "2"
rand = "0.9"
dirs = "*"
uuid = { version = "1", features = ["v4"] }
serde = { version = "1", features = ["derive"] }
ron = "*"
serde_json = "1"
anywho = "*"
tokio = { version = "1", features = ["fs", "rt"] }
futures = "0.3"
open = "*"
sqlx = { version = "0.8", default-features = false, features = ["sqlite", "runtime-tokio"] }
fsrs = "*"
