[package]
name = "lis302dl"
version = "0.1.0"
edition = "2021"
publish = false

[dependencies]
accelerometer = "0.12"
embedded-hal = "0.2"
