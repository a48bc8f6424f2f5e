[package]
name = "employee_directory"
version = "0.1.0"
edition = "2021"
publish = false

[dependencies]
anyhow = "1"
dioxus = { version = "0.6", features = ["router", "fullstack"] }
dotenvy = "0.15"
serde = { version = "1", features = ["derive"] }
sqlx = { version = "0.8", default-features = false, features = ["postgres", "runtime-tokio", "derive"] }
