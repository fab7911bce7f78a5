[package]
name = "memflow-win32"
version = "0.2.0"
edition = "2021"
publish = false

[dependencies]
memflow = "0.2"
pelite = "0.10"
pdb = "0.8"
ureq = "2"
dirs = "5"
log = "0.4"
serde = { version = "1", features = ["derive"] }
toml = "0.8"
