[package]
name = "mael_bridge"
version = "0.1.0"
edition = "2021"
publish = false
