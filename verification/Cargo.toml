[package]
name = "esp32cam"
version = "0.1.0"
edition = "2021"
publish = false

[dependencies]
anyhow = "1"
embassy-executor = { version = "*", features = ["arch-std", "executor-thread"] }
embassy-futures = "*"
embassy-sync = "*"
embassy-time = "*"
esp-idf-hal = "*"
esp-idf-svc = "*"
esp-idf-sys = "*"
log = "0.4"
serde = { version = "1", features = ["derive"] }

[dev-dependencies]
critical-section = { version = "1", features = ["std"] }
