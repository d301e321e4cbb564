[package]
name = "banshee"
version = "0.1.0"
edition = "2021"
publish = false

[dependencies]
anyhow = "=1.0.104"
crossbeam-utils = "=0.8.23"
elf = "=0.8.0"
llvm-sys = { version = "=140.1.3", features = ["force-dynamic"] }
