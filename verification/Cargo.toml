[package]
name = "workflow_audit"
version = "0.1.0"
edition = "2021"
publish = false

[dependencies]
anyhow = "*"
github-actions-models = "*"
serde_yaml = "*"
streaming-iterator = "*"
tree-sitter = "*"
tree-sitter-yaml = "*"
