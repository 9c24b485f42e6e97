[package]
name = "architect"
version = "0.1.0"
edition = "2021"
publish = false

[dependencies]
tree-sitter = "0.22"
tree-sitter-rust = "0.21"
tree-sitter-python = "0.21"
tree-sitter-typescript = "0.21"
tree-sitter-go = "0.21"
tree-sitter-java = "0.21"
tree-sitter-ruby = "0.21"
tree-sitter-php = "0.22"
tree-sitter-cpp = "0.22"
tree-sitter-kotlin = "0.3"
walkdir = "2"
serde = { version = "1", features = ["derive"] }
serde_json = "1"
rmcp = { version = "*", features = ["server", "macros", "transport-io"] }
tokio = { version = "1", features = ["macros", "rt-multi-thread", "io-std"] }
tracing = "0.1"
tracing-subscriber = { version = "0.3", features = ["env-filter"] }
anyhow = "1"
