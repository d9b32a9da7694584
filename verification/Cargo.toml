[package]
name = "typed_pdf"
version = "0.1.0"
edition = "2021"
publish = false

[dependencies]
itertools = "0.10"
pdf = "0.7"
structopt = "0.3"
