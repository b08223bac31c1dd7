[package]
name = "ferris_says"
version = "0.1.0"
edition = "2021"
publish = false

[dependencies]
smallvec = "*"
textwrap = "*"
unicode-width = "*"
clap = "*"
