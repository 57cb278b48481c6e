[package]
name = "stepseq"
version = "0.1.0"
edition = "2021"
publish = false

[dependencies]
midir = "0.6"
serde = { version = "*", features = ["derive"] }
serde_json = "*"
termion = "*"
adi_clock = "*"
