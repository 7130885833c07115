[package]
name = "macroquest"
version = "0.1.0"
edition = "2021"
publish = false

[dependencies]
memchr = "*"
cansi = "*"
convert_case = "*"
parking_lot = "*"
once_cell = "*"

[dev-dependencies]
colored = "*"
