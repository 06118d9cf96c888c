[package]
name = "idunsh"
version = "0.1.0"
edition = "2021"
publish = false

[dependencies]
bstr = "1"
clap = { version = "4", features = ["derive"] }
failure = "0.1"
mio = { version = "1", features = ["net", "os-poll"] }
nix = { version = "*", features = ["user"] }
serde = { version = "1", features = ["derive"] }
ureq = { version = "3", features = ["json"] }
