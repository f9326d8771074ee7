[package]
name = "cargo_odeps"
version = "0.1.0"
edition = "2021"
publish = false

[dependencies]
semver = "1"
json = "0.12"
ureq = "2"
xshell = "0.2"
clap = { version = "4", features = ["derive"] }
color-eyre = "0.6"
tracing = "0.1"
tracing-subscriber = { version = "0.3", features = ["env-filter"] }
