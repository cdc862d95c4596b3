[package]
name = "ruche"
version = "0.1.0"
edition = "2021"
publish = false

[dependencies]
dashmap = "*"
urlencoding = "*"
chrono = "*"
dotenv = "*"
tokio = { version = "*", features = ["rt-multi-thread", "macros", "time"] }
sqlx = { version = "*", default-features = false, features = ["runtime-tokio", "postgres", "chrono"] }
riven = "*"
