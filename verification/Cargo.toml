[package]
name = "ctl1"
version = "0.1.0"
edition = "2021"
publish = false

[dependencies]
tokio = { version = "1", features = ["sync", "rt-multi-thread", "macros"] }
log = "0.4"
eyre = "0.6"
crossterm = "0.25"
tui = "0.19"
tui-logger = "0.8"
stick = "0.13"
