[package]
name = "fad"
version = "0.1.0"
edition = "2021"
publish = false

[dependencies]
clap = { version = "4", features = ["derive"] }
num = "0.4"
rand = "0.8"
rand_distr = "0.4"
rand_pcg = "0.3"

[dev-dependencies]
npyz = "0.8"
