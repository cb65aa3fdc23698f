[package]
name = "git_point"
version = "0.1.0"
edition = "2021"
publish = false

[dependencies]
bstr = "=1.13.1"
clap = { version = "=4.6.7", features = ["derive"] }
clap_mangen = "=0.3.3"
enable-ansi-support = "*"
env_logger = "=0.11.11"
gix = "=0.90.0"
log = "=0.4.34"
miette = { version = "=7.6.0", features = ["fancy"] }
owo-colors = "=4.4.0"
tap = "=1.0.1"

[dev-dependencies]
tempfile = "=3.27.0"
