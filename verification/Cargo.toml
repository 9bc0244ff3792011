[package]
name = "meteostation_pi"
version = "0.1.0"
edition = "2021"
publish = false

[dependencies]
dht22_pi = "*"
env_logger = "*"
hyper = "0.10"
log = "*"
