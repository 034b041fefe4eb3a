[package]
name = "sdrglue"
version = "0.1.0"
edition = "2021"
publish = false

[dependencies]
rustfft = "6"
clap = { version = "4", features = ["derive"] }
soapysdr = "0.4"
