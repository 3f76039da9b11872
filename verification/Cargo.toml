[package]
name = "backer"
version = "0.1.0"
edition = "2021"
publish = false

[dependencies]
git2 = "0.20"
log = "0.4"
clap = "2"
notify = "4"
notify-rust = { version = "4", default-features = false, features = ["z"] }
simple_logger = "4"
timer = "0.2"
chrono = "0.4"

[dev-dependencies]
tempfile = "3"
