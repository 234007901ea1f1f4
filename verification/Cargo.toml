[package]
name = "term_cast"
version = "0.1.0"
edition = "2021"
publish = false

[dependencies]
crossterm = "0.25"
dirs = "*"
futures = "0.3"
futures-util = "0.3"
mdns = "3"
rust_cast = "*"
tokio = { version = "1", features = ["macros", "rt-multi-thread", "sync"] }
tui = "0.19"
warp = "0.3"
