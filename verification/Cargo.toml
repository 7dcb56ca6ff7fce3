[package]
name = "embedded_toolbox_rs"
version = "0.1.0"
edition = "2021"
publish = false

[dependencies]
rppal = { version = "=0.22.1", features = ["embedded-hal"] }
embedded-sdmmc = "=0.10.0"
