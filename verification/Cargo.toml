[package]
name = "clicksend"
version = "0.1.0"
edition = "2021"
publish = false

[dependencies]
async-trait = "*"
axum = "*"
axum-extra = { version = "*", features = ["typed-header"] }
base64 = "*"
clap = { version = "*", features = ["derive"] }
dotenv = "*"
lapin = "*"
rand = "*"
reqwest = { version = "*", default-features = false, features = ["json"] }
serde = { version = "*", features = ["derive"] }
serde_json = "*"
tokio = { version = "*", features = ["full"] }
