[package]
name = "riichi_hand"
version = "0.7.0"
edition = "2021"
publish = false

[dependencies]
image = { version = "0.25", default-features = false, features = ["png"] }
num-bigint = "0.4"
num-traits = "0.2"
