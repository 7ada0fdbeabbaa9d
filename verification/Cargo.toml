[package]
name = "job_tracker"
version = "0.1.0"
edition = "2021"
publish = false

[dependencies]
chrono = { version = "*", default-features = false, features = ["clock", "serde"] }
dotenvy = "*"
serde = { version = "*", features = ["derive"] }
sqlx = { version = "*", default-features = false, features = ["postgres", "runtime-tokio", "chrono", "macros", "migrate"] }
thiserror = "*"
tokio = { version = "*", features = ["macros", "rt-multi-thread"] }
