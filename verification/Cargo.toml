[package]
name = "vehicle_manager_axum"
version = "0.1.0"
edition = "2021"
publish = false

[dependencies]
uuid = { version = "*", features = ["v4"] }
axum = "*"
tokio = { version = "*", features = ["full"] }
serde = { version = "*", features = ["derive"] }
log = "*"
log4rs = "*"
dotenv = "*"
mini-redis = "*"
bytes = "*"
async-std = "*"
futures = "*"

[dev-dependencies]
rayon = "*"
