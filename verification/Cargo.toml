[package]
name = "portify"
version = "0.1.0"
edition = "2021"
publish = false

[dependencies]
clap = { version = "4", features = ["derive"] }
console = "0.15"
indicatif = "0.17"
libc = "0.2"
pnet = "0.35"
rand = "0.8"
tokio = { version = "1", features = ["rt-multi-thread", "macros", "time"] }
