[package]
name = "recisdb"
version = "0.1.0"
edition = "2021"
publish = false

[dependencies]
clap = { version = "4", features = ["derive"] }
ctrlc = "3"
futures-executor = "0.3"
futures-util = { version = "0.3", features = ["io"] }
libc = "0.2"
log = "0.4"
nix = { version = "0.26", default-features = false }
