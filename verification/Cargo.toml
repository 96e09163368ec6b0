[package]
name = "barcode_kit"
version = "0.1.0"
edition = "2021"
publish = false

[dependencies]
barcoders = { version = "=2.0.0", features = ["image"] }
qrcode = "=0.14.1"
image = "=0.25.10"
base64 = "=0.23.1"
rusttype = "=0.9.3"
