[package]
name = "keyed_lock"
version = "0.1.0"
edition = "2021"
publish = false

[dependencies]
parking_lot = { version = "0.12", features = ["arc_lock", "send_guard"] }
tokio = { version = "1", features = ["sync", "rt", "rt-multi-thread", "time"] }
