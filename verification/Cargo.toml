[package]
name = "hroscmidi"
version = "0.1.0"
edition = "2021"
publish = false

[dependencies]
rosc = "*"
btleplug = "*"
midir = "*"
tokio = { version = "*", features = ["rt-multi-thread", "macros", "time"] }
futures-util = "*"
serde = { version = "*", features = ["derive"] }
serde_json = "*"
directories = "*"
uuid = { version = "*", features = ["v4"] }
reqwest = { version = "*", default-features = false, features = ["json"] }
