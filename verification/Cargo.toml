[package]
name = "file_icons"
version = "0.1.0"
edition = "2021"
publish = false

[dependencies]
ansi_term = "0.12"
phf = { version = "0.11", features = ["macros"] }
