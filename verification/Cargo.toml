[package]
name = "nanoframe"
version = "0.1.0"
edition = "2021"
publish = false

[dependencies]
uuid = { version = "*", features = ["v4"] }
base64 = "*"
image = { version = "*", default-features = false, features = ["png"] }
crossbeam-channel = "*"
rfd = { version = "*", default-features = false, features = ["gtk3"] }
arboard = { version = "*", default-features = false }
open = "*"
directories = "*"
