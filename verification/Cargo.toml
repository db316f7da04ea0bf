[package]
name = "bluemap_render"
version = "0.1.0"
edition = "2021"
publish = false

[dependencies]
fastrand = "*"
serde = { version = "*", features = ["derive"] }
serde_json = "*"
serde-inline-default = "*"
default-from-serde = "*"
dirs = "*"
tokio = { version = "*", features = ["full"] }
actix-web = "*"
actix-files = "*"
