[package]
name = "adakairust"
version = "0.1.0"
edition = "2021"
publish = false

[dependencies]
num_cpus = "*"
ipaddress = "*"
serde = { version = "*", features = ["derive"] }
serde_json = "*"
dns-lookup = "*"
curl = "*"
futures = "*"
prettytable-rs = "*"
cardano_ouroboros_network = "*"
