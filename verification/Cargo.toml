[package]
name = "embedded_graphics"
version = "0.1.0"
edition = "2021"
publish = false

[dependencies]
defmt = "0.3"
maybe-async = "0.2"
