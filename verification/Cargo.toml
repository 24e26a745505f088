[package]
name = "pasta"
version = "0.1.0"
edition = "2021"
publish = false

[dependencies]
axum = "0.4"
bb8 = "0.7"
bb8-redis = "0.10"
clap = { version = "3", features = ["derive", "env"] }
rand = "0.8"
redis = { version = "0.21", features = ["tokio-comp"] }
thiserror = "1"
tokio = { version = "1", features = ["macros", "rt-multi-thread"] }
