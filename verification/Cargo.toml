[package]
name = "enviro_phat"
version = "0.1.0"
edition = "2021"
publish = false

[dependencies]
i2cdev = "*"
