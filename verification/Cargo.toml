[package]
name = "bgftool"
version = "0.1.0"
edition = "2021"
publish = false

[dependencies]
clap = { version = "4", features = ["derive"] }
color-eyre = "0.6"
flate2 = "1"
image = "0.25"
rand = "0.9"
rand_pcg = "0.9"
rayon = "1"
serde = { version = "1", features = ["derive"] }
serde_json = "1"
