[package]
name = "echo_server"
version = "0.1.0"
edition = "2021"
publish = false

[dependencies]
socket2 = "*"
tokio = { version = "*", features = ["rt-multi-thread", "net", "macros", "io-util"] }
tracing = "*"
tracing-subscriber = "*"
num_cpus = "*"
thiserror = "*"
