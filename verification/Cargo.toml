[package]
name = "lemmy_scheduled_post_bot"
version = "0.1.0"
edition = "2021"
publish = false

[dependencies]
chrono = "*"
lemmy-client = "*"
serde = { version = "*", features = ["derive"] }
tokio = { version = "*", features = ["macros", "rt-multi-thread"] }
toml = "*"
