[package]
name = "pg_bridge"
version = "0.1.0"
edition = "2021"
publish = false

[dependencies]
addin1c = "*"
postgres = "*"
utf16_lit = "*"

[dev-dependencies]
serde_json = "*"
