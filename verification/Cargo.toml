[package]
name = "arashi"
version = "0.1.0"
edition = "2021"
publish = false

[dependencies]
serde_json = "=1.0.154"
mime_guess = "=2.0.5"
serde = { version = "=1.0.229", features = ["derive"] }
serde_yaml = "=0.9.34"
clap = { version = "=4.6.7", features = ["derive"] }
tide = "=0.16.0"
async-std = { version = "=1.13.2", features = ["attributes"] }
async-trait = "=0.1.92"
tokio = { version = "=1.54.1", features = ["sync"] }
oxc_allocator = "=0.40.1"
oxc_codegen = "=0.40.1"
oxc_parser = "=0.40.1"
oxc_semantic = "=0.40.1"
oxc_span = "=0.40.1"
oxc_transformer = "=0.40.1"
