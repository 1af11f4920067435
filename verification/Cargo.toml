[package]
name = "rshogi_core"
version = "0.1.0"
edition = "2021"
publish = false

[dependencies]
shogi = "=0.12.2"
