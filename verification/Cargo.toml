[package]
name = "did_vdr"
version = "0.1.0"
edition = "2021"
publish = false
