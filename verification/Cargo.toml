[package]
name = "pac25-hal"
version = "0.1.0"
edition = "2021"
publish = false

[dependencies]
embedded-hal = { version = "=0.2.7", features = ["unproven"] }
fugit = "=0.3.9"
pac25 = { version = "=0.1.3", default-features = false, features = ["pac25140"] }
