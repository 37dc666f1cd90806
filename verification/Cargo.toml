[package]
name = "minitt"
version = "0.4.0"
edition = "2021"
publish = false

[dependencies]
clap = "2.33"
structopt = "0.3"
rustyline = "6"
dirs = "2"
