[package]
name = "thor"
version = "0.1.0"
edition = "2021"
publish = false

[dependencies]
tokio = { version = "*", features = ["full"] }
futures = "*"
futures-lite = "*"
tracing = "*"
cute = "*"
actix = "*"
merge-streams = "*"
