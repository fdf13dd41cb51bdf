[package]
name = "jgf"
version = "0.1.0"
edition = "2021"
publish = false

[dependencies]
anyhow = "*"
base64 = "*"
chrono = { version = "*", default-features = false, features = ["clock", "serde"] }
clap = { version = "*", features = ["derive"] }
colored = "*"
console = "*"
dotenv = "0.15"
git2 = { version = "*", default-features = false }
indicatif = "*"
inquire = "*"
reqwest = { version = "*", default-features = false, features = ["json", "rustls-tls"] }
serde = { version = "*", features = ["derive"] }
serde_json = "*"
tokio = { version = "*", features = ["macros", "rt-multi-thread"] }
