[package]
name = "rmnd"
version = "0.1.0"
edition = "2021"
publish = false

[dependencies]
clap = "3"
colored = "*"
serde = "*"
serde_derive = "*"
text_io = "*"
toml = "0.5"
