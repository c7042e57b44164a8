[package]
name = "wingspan_buffer"
version = "0.1.0"
edition = "2021"
publish = false

[dependencies]
ropey = "1"
druid = "0.7"
