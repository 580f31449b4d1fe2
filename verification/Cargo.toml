[package]
name = "weave_launcher"
version = "0.1.0"
edition = "2021"
publish = false

[dependencies]
ring = "*"
zip = { version = "*", default-features = false, features = ["deflate"] }
serde_json = "*"
serde = { version = "*", features = ["derive"] }
sysinfo = "*"
chrono = "*"
os_pipe = "*"
thiserror = "*"
