[package]
name = "todo_tools"
version = "0.1.0"
edition = "2021"
publish = false

[dependencies]
chrono = "*"
clap = { version = "*", features = ["derive"] }
dotenv = "*"
sqlx = { version = "*", features = ["runtime-tokio", "sqlite"], default-features = false }
tokio = { version = "*", features = ["rt-multi-thread", "macros"] }
