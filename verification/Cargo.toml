[package]
name = "cndrv"
version = "0.1.0"
edition = "2021"
publish = false

[dependencies]
context-spore = "*"
digit-layout = "*"
