[package]
name = "messycanvas"
version = "0.1.0"
edition = "2021"
publish = false

[dependencies]
toml = "*"
clap = { version = "*", features = ["env"] }
log = "*"
simple_logger = "*"
actix-web = "*"
