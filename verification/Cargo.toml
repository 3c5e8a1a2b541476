[package]
name = "mcu_common"
version = "0.1.0"
edition = "2021"
publish = false

[dependencies]
zerocopy = "=0.8.63"
anyhow = "=1.0.104"
zip = { version = "=2.6.1", default-features = false }
hex = "0.4"
