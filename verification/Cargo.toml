[package]
name = "ntf_srv"
version = "0.1.0"
edition = "2021"
publish = false

[dependencies]
axum = "0.8"
color-eyre = "0.6"
eyre = "0.6"
indexmap = "2"
serde = { version = "1", features = ["derive"] }
tokio = { version = "1", features = ["macros", "net", "rt-multi-thread"] }
