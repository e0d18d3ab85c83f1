[package]
name = "tcfetch"
version = "0.4.0"
edition = "2021"
publish = false

[dependencies]
regex = "=1.13.1"
reqwest = { version = "=0.13.5", default-features = false, features = ["blocking", "query"] }
serde = { version = "*", features = ["derive"] }
serde_derive = "*"
serde_json = "*"
zstd = "*"
scoped_threadpool = "*"
clap = "*"
env_logger = "*"
log = "*"
