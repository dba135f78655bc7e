[package]
name = "procdash"
version = "0.1.0"
edition = "2021"
publish = false

[dependencies]
crossterm = "*"
pdqsort = "1"
ratatui = "*"
rayon = "1"
sysinfo = "*"
tokio = { version = "1", features = ["macros", "rt-multi-thread"] }
