[package]
name = "rsbr"
version = "0.1.0"
edition = "2021"
publish = false

[dependencies]
toml = "*"
chrono = "*"
anyhow = "*"
getopts = "*"
dirs = "*"
x11rb = "*"
tokio = { version = "*", features = ["macros", "rt-multi-thread", "time"] }
