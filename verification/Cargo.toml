[package]
name = "move_analyzer"
version = "0.1.0"
edition = "2021"
publish = false

[dependencies]
anyhow = "=1.0.104"
im = "=15.1.0"
lsp-server = "=0.10.0"
lsp-types = "=0.97.0"
walkdir = "=2.5.0"
