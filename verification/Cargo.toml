[package]
name = "lsp_configuration"
version = "0.1.0"
edition = "2021"
publish = false

[dependencies]
lsp-server = "0.7"
lsp-types = "0.95"
serde_json = "1"
