[package]
name = "xds110_config"
version = "0.1.0"
edition = "2021"
publish = false

[dependencies]
nusb = "0.1"
futures-lite = "2"
async-io = "2"
