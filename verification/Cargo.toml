[package]
name = "toy_payments"
version = "0.1.0"
edition = "2021"
publish = false

[dependencies]
csv = "1"
log = "0.4"
simple_logger = "*"
structopt = "0.3"
