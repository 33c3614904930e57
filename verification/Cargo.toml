[package]
name = "rbf"
version = "0.1.0"
edition = "2021"
publish = false

[dependencies]
colorful = "*"
hlua = "*"
once_cell = "*"
