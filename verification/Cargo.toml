[package]
name = "racesim"
version = "0.1.0"
edition = "2021"
publish = false

[dependencies]
rand = "0.8"
rand_distr = "0.4"
css-color-parser = "*"
anyhow = "1"
serde = { version = "1", features = ["derive"] }
serde_json = "1"
csv = "1"
clap = { version = "3", features = ["derive"] }
flume = "*"
