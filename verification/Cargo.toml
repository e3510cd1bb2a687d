[package]
name = "magnetar"
version = "0.1.0"
edition = "2021"
publish = false

[dependencies]
color-eyre = "*"
glam = "*"
mint = "*"
stardust-xr-fusion = "*"
stardust-xr-molecules = "*"
tokio = { version = "1", features = ["macros", "rt", "signal"] }
