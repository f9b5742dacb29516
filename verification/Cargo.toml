[package]
name = "gitkv"
version = "0.1.0"
edition = "2021"
publish = false

[dependencies]
git2 = { version = "*", default-features = false }
serde_json = "1"
serde = { version = "1", features = ["derive"] }
actix = "0.13"
actix-web = { version = "4", default-features = false, features = ["macros"] }
actix-rt = "2"
clap = "2.33"
env_logger = "*"
log = "0.4"

[dev-dependencies]
tempdir = "0.3"
tempfile = "3"
