[package]
name = "oxi_talib"
version = "0.1.0"
edition = "2021"
publish = false

[dependencies]
ta-lib-sys = "*"
ta-lib-wrapper = "*"
