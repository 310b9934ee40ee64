[package]
name = "zeta"
version = "0.1.0"
edition = "2021"
publish = false

[dependencies]
anyhow = "=1.0.104"
clap = { version = "=4.6.7", features = ["derive"] }
cranelift = "=0.130.2"
cranelift-jit = "=0.130.2"
cranelift-module = "=0.130.2"
dashmap = "=6.2.1"
lsp-server = "=0.10.0"
lsp-types = "=0.97.0"
mimalloc = "=0.1.52"
serde_json = "=1.0.154"
smallvec = "=1.16.4"
