[package]
name = "assembly_matrix"
version = "0.1.0"
edition = "2021"
publish = false

[dependencies]
clap = { version = "4", features = ["derive"] }
finch = "*"
flate2 = "1"
serde = { version = "1", features = ["derive"] }
serde_json = "1"
