[package]
name = "imageflow_ex"
version = "0.1.0"
edition = "2021"
publish = false
