[package]
name = "imgpipe"
version = "0.1.0"
edition = "2021"
publish = false

[dependencies]
image = { version = "0.25", default-features = false, features = ["png", "jpeg", "webp"] }
base64 = "0.22"
libwebp-sys = "*"
url = "2"
worker = "*"
console_error_panic_hook = "0.1"
dlmalloc = "*"
