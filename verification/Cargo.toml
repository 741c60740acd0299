[package]
name = "bot_fleet"
version = "0.1.0"
edition = "2021"
publish = false

[dependencies]
sha256 = "1"
anyhow = "1"
tokio = { version = "1", features = ["rt", "macros", "signal", "time"] }
sqlx = { version = "0.8", default-features = false, features = ["sqlite", "runtime-tokio"] }
dotenv = "0.15"
azalea = "=0.11.0"
bevy_app = "0.15"
bevy_ecs = "0.15"
