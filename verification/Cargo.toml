[package]
name = "aitios_cli"
version = "0.1.0"
edition = "2021"
publish = false

[dependencies]
chrono = "=0.4.45"
clap = "=2.34.0"
log = "=0.4.34"
rayon = "=1.12.0"
serde = "=1.0.229"
serde_derive = "=1.0.229"
serde_yaml = "=0.8.26"
simplelog = "=0.12.2"
