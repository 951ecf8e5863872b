[package]
name = "rs_git_status2arrow_ipc_stream"
version = "0.1.0"
edition = "2021"
publish = false

[dependencies]
arrow = { version = "=60.0.0", default-features = false, features = ["ipc"] }
gix = { version = "=0.90.0", default-features = false, features = ["status", "sha1"] }
serde = { version = "=1.0.229", features = ["derive"] }
serde_json = "=1.0.154"
