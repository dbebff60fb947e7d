[package]
name = "mvln"
version = "0.1.0"
edition = "2021"
publish = false

[dependencies]
glob = "*"
pathdiff = "*"
libc = "*"
clap = { version = "*", features = ["derive"] }
fluent = "*"
fluent-langneg = "*"
sys-locale = "*"
unic-langid = { version = "*", features = ["macros"] }
thiserror = "*"
