[package]
name = "params_estimator"
version = "0.1.0"
edition = "2021"
publish = false

[dependencies]
wat = "1"
serde_json = "1"
clap = "4"
