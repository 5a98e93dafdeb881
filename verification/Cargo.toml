[package]
name = "hdlman"
version = "0.1.0"
edition = "2021"
publish = false

[dependencies]
clap = "2"
colour = "*"
directories = "*"
serde = { version = "1", features = ["derive"] }
serde_derive = "1"
toml = "0.5"
