[package]
name = "pipes"
version = "0.1.0"
edition = "2021"
publish = false

[dependencies]
rivulet = "=0.1.0"
