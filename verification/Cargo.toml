[package]
name = "thatte_mk"
version = "0.1.0"
edition = "2021"
publish = false

[dependencies]
anyhow = "*"
clap = { version = "*", features = ["derive"] }
libc = "*"
nix = { version = "*", features = ["mman"] }
serde = { version = "*", features = ["derive"] }
toml = "*"
