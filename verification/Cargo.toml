[package]
name = "meter2car"
version = "0.1.0"
edition = "2021"
publish = false

[dependencies]
aes = "=0.8.4"
cipher = "=0.4.4"
dlms_cosem = "=0.2.0"
hex = "=0.4.3"
mbusparse = "=0.1.3"
nom = "=7.1.3"
reqwest = { version = "=0.12.28", default-features = false, features = ["json"] }
rppal = "=0.22.1"
serde_json = "=1.0.154"
serialport = { version = "=4.10.1", default-features = false }
tokio = { version = "=1.54.1", features = ["macros", "rt-multi-thread"] }
url = "=2.5.8"

[dev-dependencies]
aes-gcm = "=0.9.4"
