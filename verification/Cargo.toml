[package]
name = "key_counter"
version = "0.1.0"
edition = "2021"
publish = false

[dependencies]
evdev = "0.12"
nix = { version = "0.27", features = ["fs"] }
rand = "0.8"
rodio = "0.17"
