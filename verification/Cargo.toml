[package]
name = "category_api"
version = "0.1.0"
edition = "2021"
publish = false

[dependencies]
axum = "0.7"
serde = { version = "1", features = ["derive"] }
tokio = { version = "1", features = ["macros", "rt-multi-thread", "net"] }
utoipa = "4"
utoipa-swagger-ui = { version = "6", features = ["axum"] }

[dev-dependencies]
serde_json = "1"
