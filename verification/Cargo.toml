[package]
name = "kafka_errors"
version = "0.1.0"
edition = "2021"
publish = false

[dependencies]
byteorder = "0.3"
num = "*"
