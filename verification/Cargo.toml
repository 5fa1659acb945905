[package]
name = "pmd"
version = "0.1.0"
edition = "2021"
publish = false

[dependencies]
axum = "0.6"
clap = { version = "4", features = ["derive"] }
crossterm = "0.25"
home = "0.5"
serde = { version = "1", features = ["derive"] }
serde_json = { version = "1", features = ["preserve_order"] }
tokio = { version = "1", features = ["macros", "rt-multi-thread", "sync"] }
toml = "0.8"
tui = "0.19"
tui-tree-widget = "0.11"
