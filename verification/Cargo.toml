[package]
name = "brep_compound"
version = "0.1.0"
edition = "2021"
publish = false
