[package]
name = "pll5p49v"
version = "0.1.0"
edition = "2021"
publish = false

[dependencies]
embedded-hal-async = "1.0"
defmt = "0.3"
