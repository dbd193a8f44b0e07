[package]
name = "cluster_classifier"
version = "0.1.0"
edition = "2021"
publish = false

[dependencies]
clap = { version = "4", features = ["derive"] }
csv = "1"
ndarray = "0.15"
rand = "0.8"
rand_distr = "0.4"
rusty-machine = "0.5"
serde = { version = "1", features = ["derive"] }
toml = "0.8"
