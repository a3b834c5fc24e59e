[package]
name = "meshcom"
version = "0.1.0"
edition = "2021"
publish = false

[dependencies]
color-eyre = "0.6"
log = "0.4"
meshtastic = "*"
ratatui = "0.29"
tokio = { version = "1", features = ["macros", "rt", "rt-multi-thread", "sync", "time"] }
