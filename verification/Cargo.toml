[package]
name = "checksec"
version = "0.1.0"
edition = "2021"
publish = false

[dependencies]
goblin = "=0.2.3"
ignore = "=0.4.33"
memmap = "=0.7.0"
serde_json = "=1.0.154"
