[package]
name = "tyr"
version = "0.1.0"
edition = "2021"
publish = false

[dependencies]
mustache = "*"
Inflector = "*"
clap = "*"
term = "*"
mimir = "*"
