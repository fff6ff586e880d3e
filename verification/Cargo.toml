[package]
name = "egakareta"
version = "0.1.0"
edition = "2021"
publish = false

[dependencies]
base64 = "0.22"
glam = "*"
serde_json = "1"
log = "0.4"
