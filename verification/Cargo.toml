[package]
name = "corophage"
version = "0.3.2"
edition = "2021"
publish = false

[dependencies]
fauxgen = "*"
proc-macro2 = "1"
quote = "1"
syn = { version = "2", features = ["full", "visit-mut"] }
proc-macro-crate = "3"
