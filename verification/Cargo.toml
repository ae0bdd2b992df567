[package]
name = "moon_toolchain_nix"
version = "0.1.0"
edition = "2021"
publish = false

[dependencies]
extism-pdk = "=1.4.1"
moon_pdk = "=2.3.0"
moon_pdk_api = "=2.3.0"
schematic = "=0.20.8"
serde = { version = "*", features = ["derive"] }
