[package]
name = "kernel_builder"
version = "0.1.0"
edition = "2021"
publish = false

[dependencies]
anyhow = "1"
clap = { version = "4", features = ["derive"] }
num_cpus = "1"
reqwest = { version = "0.12", default-features = false, features = ["blocking"] }
