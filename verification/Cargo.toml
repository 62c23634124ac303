[package]
name = "lucid_ao4"
version = "0.1.0"
edition = "2021"
publish = false

[dependencies]
serial = "0.4"
