[package]
name = "runner_audit"
version = "0.1.0"
edition = "2021"
publish = false

[dependencies]
anyhow = "*"
github-actions-models = "*"
log = "*"
