[package]
name = "pass_gen_core"
version = "0.1.0"
edition = "2021"
publish = false

[dependencies]
random-string = "*"
clap = "=2.34.0"
