[package]
name = "wasmbl"
version = "0.1.0"
edition = "2021"
publish = false

[dependencies]
anyhow = "1"
async-std = "1"
binaryen = "*"
cargo_metadata = "0.12"
env_logger = "0.8"
fs_extra = "1"
futures = "0.3"
log = "0.4"
notify = "4"
platforms = "1"
rand = "0.8"
sass-rs = "0.2"
structopt = "0.3"
tempfile = "3"
tera = "1"
tide = "0.16"
walkdir = "2"
wasm-bindgen-cli-support = "0.2"
