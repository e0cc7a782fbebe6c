[package]
name = "radio_bringup"
version = "0.1.0"
edition = "2021"
publish = false

[dependencies]
anyhow = "1"
embedded-svc = "0.22"
esp-idf-svc = "0.42"
esp-idf-sys = "0.31"
log = "0.4"
