[package]
name = "tenere"
version = "0.1.0"
edition = "2021"
publish = false

[dependencies]
tui-textarea = "=0.4.0"
ratatui = "=0.30.2"
crossterm = "=0.29.0"
unicode-width = "=0.1.14"
arboard = { version = "=3.7.0", default-features = false }
tokio = { version = "=1.54.1", features = ["rt-multi-thread", "sync", "macros", "time"] }
async-trait = "=0.1.92"
serde = { version = "=1.0.229", features = ["derive"] }
serde_json = "1"
clap = "=4.6.7"
bat = { version = "=0.24.0", default-features = false, features = ["regex-fancy"] }
ansi-to-tui = "=3.1.0"
