[package]
name = "nesferratu_core"
version = "0.1.0"
edition = "2021"
publish = false

[dependencies]
clap = "2"
ctrlc = "3"
lazy_static = "1"
regex = "1"
rustyline = "9"
