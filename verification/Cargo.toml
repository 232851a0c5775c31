[package]
name = "bridge_message_weights"
version = "0.1.0"
edition = "2021"
publish = false

[dependencies]
frame-support = "*"
bp-messages = "*"
bp-runtime = "*"
