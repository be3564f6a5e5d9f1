[package]
name = "transactor"
version = "0.1.0"
edition = "2021"
publish = false

[dependencies]
argh = "*"
csv = "*"
rust_decimal = "*"
serde = { version = "*", features = ["derive"] }
thiserror = "*"
