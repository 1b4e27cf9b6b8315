[package]
name = "hextool"
version = "0.1.1"
edition = "2021"
publish = false

[dependencies]
atty = "=0.2.14"
clap = { version = "=4.6.7", features = ["derive"] }

[dev-dependencies]
regex = "1"
