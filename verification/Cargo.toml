[package]
name = "aube"
version = "0.1.0"
edition = "2021"
publish = false

[dependencies]
miette = "7"
tokio = { version = "1", features = ["rt-multi-thread", "sync"] }
rustler = "*"
clx = "*"
