[package]
name = "font_enumeration"
version = "0.1.0"
edition = "2021"
publish = false

[dependencies]
anyhow = "*"
clap = { version = "*", features = ["derive"] }
fontconfig = "*"
log = "*"
serde = { version = "*", features = ["derive"] }
serde_json = "*"
swash = "*"
thiserror = "*"
