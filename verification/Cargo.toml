[package]
name = "rsim_pipe"
version = "0.1.0"
edition = "2021"
publish = false

[dependencies]
quark = "*"
clap = { version = "*", features = ["derive"] }
colored = "*"
