[package]
name = "rusify_cli"
version = "0.1.0"
edition = "2021"
publish = false

[dependencies]
anyhow = "1"
askama = "0.12"
camino = "1"
cargo_metadata = "0.15"
clap = { version = "4", features = ["derive"] }
convert_case = "0.6"
dialoguer = "0.11"
execute = "0.2"
glob = "0.3"
indicatif = "0.17"
uniffi_bindgen = "0.28"
zip = { version = "0.6", default-features = false, features = ["deflate"] }
