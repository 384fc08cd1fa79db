[package]
name = "casr_triage"
version = "0.1.0"
edition = "2021"
publish = false

[dependencies]
anyhow = "1"
clap = "3"
gdb-command = "*"
linux-personality = "*"

[dev-dependencies]
serde_json = "1"
