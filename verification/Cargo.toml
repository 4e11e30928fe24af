[package]
name = "bulk_import"
version = "0.1.0"
edition = "2021"
publish = false

[dependencies]
clap = "4"
indicatif = "0.17"
sqlx = { version = "0.8", default-features = false, features = ["sqlite"] }
strum = { version = "0.26", features = ["derive"] }
