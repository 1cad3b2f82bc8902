[package]
name = "tax_calculator"
version = "0.1.0"
edition = "2021"
publish = false

[dependencies]
thousands = "0.2.0"
