[package]
name = "keymint_bringup"
version = "0.1.0"
edition = "2021"
publish = false

[dependencies]
anyhow = "*"
log = "*"
android_logger = "*"
