[package]
name = "lyricer"
version = "0.1.0"
edition = "2021"
publish = false

[dependencies]
anyhow = "1"
log = "0.4"
mpris = "2"
pretty_env_logger = "0.5"
thiserror = "1"
urlencoding = "2"
