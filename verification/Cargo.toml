[package]
name = "serve_md"
version = "0.1.0"
edition = "2021"
publish = false

[dependencies]
clap = { version = "4", features = ["derive"] }
markdown = "*"
tiny_http = "0.12"
