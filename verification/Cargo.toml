[package]
name = "rest_api_server"
version = "0.1.0"
edition = "2021"
publish = false

[dependencies]
byteorder = "1"
chrono = "0.4"
rustc-serialize = "0.3"
rand = "0.8"
rust-crypto = "0.2"
data-encoding = "2"
otpauth = "*"
redis = "*"
toml = "*"
lazy_static = "1"
qrcode = "*"
image = { version = "*", default-features = false, features = ["png"] }
iron = "0.6"
router = "0.6"
mount = "0.4"
staticfile = "0.5"
lettre = "*"
