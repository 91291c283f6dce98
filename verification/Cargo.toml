[package]
name = "huhnitor"
version = "0.1.0"
edition = "2021"
publish = false

[dependencies]
regex = "1"
tokio = { version = "1", features = ["rt-multi-thread", "macros", "sync", "io-util", "time"] }
tokio-serial = "5.4"
serialport = { version = "4", default-features = false }
crossterm = "0.27"
ratatui = "0.26"
rustyline = "13"
structopt = "0.3"
lazy_static = "1.4"
