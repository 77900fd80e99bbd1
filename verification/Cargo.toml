[package]
name = "tunshell_session"
version = "0.1.0"
edition = "2021"
publish = false

[dependencies]
anyhow = "1"
futures = "0.3"
log = "0.4"
tokio = { version = "1", features = ["macros", "time"] }
tokio-util = { version = "0.7", features = ["compat"] }
warp = { version = "0.3", default-features = false }
