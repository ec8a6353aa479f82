[package]
name = "bu"
version = "0.1.0"
edition = "2021"
publish = false

[dependencies]
anyhow = "*"
clap = { version = "*", features = ["derive"] }
clap_complete = "*"
dirs = "*"
hex = "*"
reqwest = { version = "*", default-features = false, features = ["blocking"] }
sha2 = "*"
starlark = "*"
tempfile = "*"
thiserror = "*"
tracing = "*"
tracing-subscriber = "*"
which = "*"
zstd = "*"
