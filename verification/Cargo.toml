[package]
name = "setter_gen"
version = "0.1.0"
edition = "2021"

[dependencies]
syn = "2"
quote = "1"
proc-macro2 = "1"
