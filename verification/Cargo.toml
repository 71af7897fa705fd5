[package]
name = "ordkedja"
version = "0.1.0"
edition = "2021"
publish = false

[dependencies]
rand = "0.8"
serde = { version = "1", features = ["derive"] }
ron = "0.8"
serenity = "0.11"
tokio = { version = "1", features = ["macros", "rt-multi-thread"] }
