[package]
name = "assistant-rs"
version = "0.1.0"
edition = "2021"
publish = false

[dependencies]
anyhow = "1"
embedded-hal = "1"
embedded-sdmmc = "*"
embedded-svc = "*"
esp-idf-hal = "*"
esp-idf-svc = "*"
esp-idf-sys = "*"
esp-hal = "*"
esp-alloc = "*"
esp-wifi = "*"
