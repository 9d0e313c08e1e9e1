[package]
name = "scored"
version = "0.1.0"
edition = "2021"
publish = false

[dependencies]
threadpool = "*"
log = "*"
flexi_logger = "*"
