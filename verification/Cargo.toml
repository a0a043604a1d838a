[package]
name = "stoppable_thread_pool"
version = "0.1.0"
edition = "2021"
publish = false

[dependencies]
async-std = "*"
async-channel = "*"
futures = { version = "*", features = ["thread-pool"] }
futures-executor = "*"
