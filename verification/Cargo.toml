[package]
name = "plumb"
version = "0.1.0"
edition = "2021"
publish = false

[dependencies]
serde = { version = "1", features = ["derive"] }
serde_json = "1"
csv = "1"
anyhow = "1"
thiserror = "2"
async-trait = "0.1"
axum = "0.8"
dotenv = "0.15"
futures-util = { version = "0.3", features = ["sink"] }
rusqlite = { version = "*", features = ["bundled"] }
tokio = { version = "1", features = ["full"] }
tokio-tungstenite = "*"
tower = "0.5"
tower-http = { version = "0.6", features = ["cors", "fs"] }
