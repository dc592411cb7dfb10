[package]
name = "trustify"
version = "0.1.0"
edition = "2021"
publish = false

[dependencies]
sea-orm = { version = "*", default-features = false }
sea-orm-migration = { version = "*", default-features = false }
packageurl = "*"
actix-web = { version = "*", default-features = false }
anyhow = "*"
serde = { version = "*", features = ["derive"] }
thiserror = "*"
