[package]
name = "ifuse_automount"
version = "0.1.0"
edition = "2021"
publish = false

[dependencies]
rusb = "*"
dirs = "*"
