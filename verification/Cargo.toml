[package]
name = "devserial"
version = "0.1.0"
edition = "2021"
publish = false

[dependencies]
async-stream = "*"
axum = "*"
chrono = "*"
clap = { version = "4", features = ["derive"] }
eframe = { version = "*", default-features = false, features = ["default_fonts", "glow", "x11"] }
futures-core = "*"
image = { version = "*", default-features = false, features = ["png"] }
regex = "1"
rmcp = { version = "*", features = ["server", "macros", "transport-io"] }
rusqlite = { version = "*", features = ["bundled"] }
schemars = "1"
serde = { version = "1", features = ["derive"] }
serde_json = "1"
serial2 = "*"
serial2-tokio = "*"
thiserror = "2"
tokio = { version = "1", features = ["full"] }
toml = "*"
tracing = "*"
tracing-subscriber = { version = "*", features = ["env-filter"] }
