[package]
name = "rakugaki"
version = "0.1.0"
edition = "2021"

[dependencies]
fontdue = "0.9"
