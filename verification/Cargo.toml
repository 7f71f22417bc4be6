[package]
name = "cortex_rt"
version = "0.1.0"
edition = "2021"

[dependencies]
bare-metal = "0.2"
cc = "1"
