[package]
name = "pg_idna"
version = "0.1.0"
edition = "2021"
publish = false

[dependencies]
idna = "=1.1.0"
pgrx = { version = "=0.12.9", default-features = false, features = ["pg17"] }
