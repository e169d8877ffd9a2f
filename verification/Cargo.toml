[package]
name = "rua"
version = "0.1.0"
edition = "2021"
publish = false

[dependencies]
regex = "=1.13.1"
srcinfo = "=1.3.1"
directories = "=6.0.0"
log = "0.4"
