[package]
name = "portfolio"
version = "0.1.0"
edition = "2021"
publish = false

[dependencies]
anyhow = "1"
axum = { version = "0.7", features = ["macros"] }
http = "1"
maud = { version = "0.26", features = ["axum"] }
pulldown-cmark = { version = "0.10", default-features = false, features = ["html"] }
tokio = { version = "1", features = ["full"] }
tower-http = { version = "0.5", features = ["fs"] }
