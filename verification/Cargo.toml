[package]
name = "cargo_samply"
version = "0.1.0"
edition = "2021"
publish = false

[dependencies]
cargo_metadata = "*"
cargo_toml = "*"
clap = { version = "*", features = ["derive"] }
clap-cargo = "*"
log = "*"
ocli = "*"
shell-words = "*"
thiserror = "*"
toml = "*"
which = "*"
