[package]
name = "pinned_self_ref"
version = "0.1.0"
edition = "2021"
publish = false
