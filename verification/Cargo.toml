[package]
name = "leptos_reqwest"
version = "0.1.0"
edition = "2021"
publish = false

[dependencies]
leptos = "=0.6.15"
reqwest = { version = "=0.12.28", default-features = false, features = ["json"] }
serde = "=1.0.229"
serde_urlencoded = "=0.7.1"

[dev-dependencies]
serde_json = "=1.0.154"
