[package]
name = "todo_core"
version = "0.1.0"
edition = "2021"
publish = false

[dependencies]
bcrypt = "=0.19.3"
chrono = "=0.4.45"
dotenv = "=0.15.0"
jsonwebtoken = { version = "=11.1.0", features = ["rust_crypto"] }
serde_json = "*"
