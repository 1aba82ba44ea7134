[package]
name = "vibecheck"
version = "0.1.0"
edition = "2021"
publish = false

[dependencies]
chrono = "*"
chrono-tz = "*"
serde = { version = "*", features = ["derive"] }
anyhow = "*"
tera = "*"
futures = "*"
actix-web = { version = "*", default-features = false }
egg-mode = "*"
