[package]
name = "tesseract_timer"
version = "0.1.0"
edition = "2021"
publish = false

[dependencies]
rand = "0.9"
open = "5"
tracing = "0.1"
i18n-embed = { version = "0.15", features = ["fluent-system", "desktop-requester"] }
i18n-embed-fl = "0.9"
rust-embed = "8"
