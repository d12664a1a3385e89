[package]
name = "tcn_exchange"
version = "0.1.0"
edition = "2021"
publish = false

[dependencies]
tcn = "0.4"
rand = "0.7"
rand_chacha = "0.2"
bytes = "0.5"
color-backtrace = "0.3"
eyre = "0.3"
futures = "0.3"
indenter = "0.1"
libc = "0.2"
once_cell = "1"
reqwest = { version = "0.10", default-features = false }
structopt = "0.3"
tokio = { version = "0.2", features = ["full"] }
tracing = "0.1"
tracing-error = "0.1"
tracing-subscriber = "0.2"
warp = { version = "0.2", default-features = false }
