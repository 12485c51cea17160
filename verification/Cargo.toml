[package]
name = "gsteng"
version = "0.1.0"
edition = "2021"
publish = false

[dependencies]
rand = "0.8"
fastrand = "2"
uuid = { version = "1", features = ["v4"] }
serde = { version = "1", features = ["derive"] }
serde_json = "1"
tokio = { version = "1", features = ["full"] }
chrono = "0.4"
once_cell = "1"
thiserror = "1"
log = "0.4"
async-trait = "0.1"
futures = "0.3"
futures-util = "0.3"
tokio-tungstenite = "*"
reqwest = { version = "*", default-features = false, features = ["json"] }
num_cpus = "1"
gilrs = "*"
rppal = "*"
