[package]
name = "iso9660"
version = "0.1.0"
edition = "2021"
publish = false
