[package]
name = "drp_rs"
version = "0.1.0"
edition = "2021"
publish = false

[dependencies]
anyhow = "1"
axum = "*"
discord-rich-presence = "*"
dotenvy = "*"
fltk = "*"
gtk = "*"
image = { version = "*", default-features = false, features = ["png"] }
mpris = "*"
serde = { version = "1", features = ["derive"] }
tokio = { version = "1", features = ["full"] }
tokio-util = { version = "*", features = ["rt"] }
toml = "*"
tower-http = { version = "*", features = ["trace"] }
tracing-subscriber = { version = "*", features = ["env-filter"] }
tray-icon = "*"
