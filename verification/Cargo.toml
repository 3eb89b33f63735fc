[package]
name = "whis_desktop"
version = "0.1.0"
edition = "2021"
publish = false

[dependencies]
dirs = "=7.0.0"
serde = { version = "=1.0.229", features = ["derive"] }
serde_json = "=1.0.151"
dotenvy = "=0.15.7"
ashpd = { version = "=0.13.13", default-features = false, features = ["async-io", "global_shortcuts"] }
futures-util = "=0.3.34"
arboard = { version = "=3.6.1", default-features = false }
