[package]
name = "kubie"
version = "0.1.0"
edition = "2021"
publish = false

[dependencies]
anyhow = "1"
attohttpc = { version = "*", default-features = false, features = ["json"] }
atty = "0.2"
cfg-if = "1"
clap = { version = "4", features = ["derive"] }
dirs = "5"
fs2 = "0.4"
glob = "0.3"
lazy_static = "1"
libc = "0.2"
serde = { version = "1", features = ["derive"] }
serde_json = "1"
serde_yaml = "0.9"
signal-hook = "0.3"
which = "*"
wildmatch = "2"
