[package]
name = "lint_driver"
version = "0.1.0"
edition = "2021"
publish = false

[dependencies]
codeowners = "0.1"
dashmap = "=5.5.3"
env_logger = "=0.11.11"
futures = "=0.3.34"
globset = "=0.4.20"
ignore = "=0.4.33"
log = "=0.4.34"
oxc_allocator = "=0.8.0"
oxc_diagnostics = "=0.8.0"
oxc_parser = "=0.8.0"
oxc_semantic = "=0.8.0"
oxc_span = "=0.8.0"
rayon = "=1.12.0"
ropey = "1"
serde = { version = "=1.0.229", features = ["derive"] }
serde_json = "=1.0.154"
tokio = { version = "=1.54.1", features = ["full"] }
tower-lsp = "=0.20.0"
