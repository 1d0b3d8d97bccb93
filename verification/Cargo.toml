[package]
name = "password_manager"
version = "0.1.0"
edition = "2021"
publish = false

[dependencies]
chrono = "=0.4.45"
directories = "=6.0.0"
iced = { version = "=0.13.1", default-features = false, features = ["tokio"] }
