[package]
name = "teo"
version = "0.1.0"
edition = "2021"
publish = false

[dependencies]
pad = "0.1"
regex = "1"
Inflector = "0.11"
async-trait = "0.1"
futures-util = "0.3"
