[package]
name = "snippets"
version = "0.1.0"
edition = "2021"
publish = false

[dependencies]
thread_local = "*"
