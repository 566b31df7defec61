[package]
name = "stealth_fetch"
version = "0.1.0"
edition = "2021"
publish = false

[dependencies]
headless_chrome = "=1.0.22"
serde_json = "=1.0.151"
