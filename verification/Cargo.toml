[package]
name = "workspace_reconcile"
version = "0.1.0"
edition = "2021"
publish = false

[dependencies]
clap = "2"
serde = { version = "1", features = ["derive"] }
serde-xml-rs = "0.4"
