[package]
name = "kanshi"
version = "0.1.0"
edition = "2021"
publish = false

[dependencies]
async-stream = "*"
futures = "*"
libc = "*"
nix = { version = "*", features = ["fanotify", "event", "fs"] }
tokio = { version = "*", features = ["sync", "rt-multi-thread", "macros"] }
tokio-util = "*"
