[package]
name = "task_bootstrap"
version = "0.1.0"
edition = "2021"
publish = false

[dependencies]
serde_json = "*"
uuid = "*"
url = "*"
ipc-channel = "*"
