[package]
name = "webb_runner"
version = "0.1.0"
edition = "2021"
publish = false

[dependencies]
tokio = { version = "1", features = ["sync", "time", "process", "fs", "io-util", "rt-multi-thread", "macros"] }
uuid = { version = "1", features = ["v4"] }
mlua = { version = "0.9", features = ["luau"] }
