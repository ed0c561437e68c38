[package]
name = "lsp_state"
version = "0.1.0"
edition = "2021"
publish = false

[dependencies]
ropey = "1"
globset = "0.4"
dashmap = "6"
async-lsp = "*"
futures = "0.3"
