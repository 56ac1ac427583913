[package]
name = "blesd"
version = "0.1.0"
edition = "2021"
publish = false

[dependencies]
tabled = "*"
btleplug = "*"
clap = { version = "*", features = ["derive"] }
colored = "*"
tokio = { version = "*", features = ["rt-multi-thread", "macros", "time"] }
uuid = "*"
