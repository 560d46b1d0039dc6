[package]
name = "receipt_rows"
version = "0.1.0"
edition = "2021"
publish = false

[dependencies]
bigdecimal = "*"
num-traits = "*"
serde_json = "*"
