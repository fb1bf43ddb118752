[package]
name = "pulse"
version = "0.1.0"
edition = "2021"
publish = false

[dependencies]
uuid = { version = "*", features = ["v4", "serde"] }
chrono = "*"
rand = "*"
serde = { version = "*", features = ["derive"] }
serde_json = "*"
thiserror = "*"
axum = { version = "*", features = ["ws"] }
tokio = { version = "*", features = ["full"] }
tracing = "*"
tracing-subscriber = "*"
futures = "*"
futures-util = "*"
reqwest = { version = "*", default-features = false, features = ["json"] }
tokio-tungstenite = "*"
dotenv = "*"
