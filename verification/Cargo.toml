[package]
name = "vl-api"
version = "0.1.0"
edition = "2021"
publish = false

[dependencies]
chrono = "0.4"
sha2 = "0.10"
rand = "0.9"
uuid = { version = "1", features = ["v4"] }
csv = "1"
serde = { version = "1", features = ["derive"] }
serde_json = "1"
evalexpr = "*"
qrcode = "*"
image = { version = "*", default-features = false, features = ["png"] }
sysinfo = "*"
