[package]
name = "tcp_options"
version = "0.1.0"
edition = "2021"
publish = false

[dependencies]
log = "*"
nix = { version = "*", features = ["socket", "net"] }
structopt = "*"
tokio = { version = "*", features = ["net", "rt"] }
