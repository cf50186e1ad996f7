[package]
name = "orb"
version = "0.1.0"
edition = "2021"
publish = false

[dependencies]
tera = "*"
actix-web = "*"
actix-files = "*"
env_logger = "*"
log = "*"
