[package]
name = "schema_model"
version = "0.1.0"
edition = "2021"
publish = false

[dependencies]
syn = "=0.12.15"
proc-macro2 = "=0.2.3"
quote = "=0.4.2"
