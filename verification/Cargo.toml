[package]
name = "chess_report"
version = "0.1.0"
edition = "2021"
publish = false

[dependencies]
url = "*"
pgnparse = "*"
serde = { version = "*", features = ["derive"] }
anyhow = "*"
chrono = "*"
axum = "*"
tokio = { version = "*", features = ["macros", "rt-multi-thread", "net", "signal"] }
tower-http = { version = "*", features = ["timeout"] }
reqwest = { version = "*", default-features = false }
umya-spreadsheet = "*"
