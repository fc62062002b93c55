[package]
name = "niralis_session_worker"
version = "0.1.0"
edition = "2021"
publish = false

[dependencies]
zbus = "5"
libc = "0.2"
libloading = "0.8"
async-io = "2"
futures-lite = "2"
tracing = "0.1"
tracing-subscriber = { version = "0.3", features = ["env-filter"] }
