[package]
name = "rain"
version = "0.1.0"
edition = "2021"
publish = false

[dependencies]
clap = "*"
image = "*"
indicatif = "*"
piston_window = "*"
rand = "*"
rayon = "*"
