[package]
name = "rsnitch"
version = "0.1.0"
edition = "2021"
publish = false

[dependencies]
dns-lookup = "1"
envmnt = "0.10"
fastping-rs = "0.2"
iced = { version = "0.12", default-features = false, features = ["tokio"] }
iced_aw = { version = "0.9", default-features = false, features = ["grid"] }
serde = { version = "1", features = ["derive"] }
serde_json = "1"
sudo = "0.6"
time = { version = "0.3", features = ["local-offset"] }
whoami = "1"
