[package]
name = "wimsy"
version = "0.1.0"
edition = "2021"
publish = false

[dependencies]
anyhow = "1"
atty = "0.2"
camino = "1"
clap = { version = "4", features = ["derive"] }
colored = "2"
itertools = "0.12"
which = "4"
xml-rs = "0.8"
