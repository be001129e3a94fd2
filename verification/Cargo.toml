[package]
name = "dotthefiles"
version = "0.1.0"
edition = "2021"
publish = false

[dependencies]
os_info = "*"
serde = { version = "*", features = ["derive"] }
serde_json = "*"
serde_yaml = "*"
toml = "*"
structopt = "*"
colored = "*"
dirs = "*"
libc = "*"
