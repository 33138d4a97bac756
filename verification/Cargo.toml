[package]
name = "stock_opname"
version = "0.1.0"
edition = "2021"
publish = false

[dependencies]
bcrypt = "*"
