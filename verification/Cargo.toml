[package]
name = "dialogue_bot"
version = "0.1.0"
edition = "2021"
publish = false

[dependencies]
serde_json = "=1.0.151"
takecell = ">=0.1.0, <0.1.2"
serde = { version = "1", features = ["derive"] }
reqwest = { version = "0.11", default-features = false, features = ["json", "rustls-tls"] }
tokio = { version = "1", features = ["macros", "rt-multi-thread"] }
teloxide = { version = "0.12", default-features = false, features = ["rustls", "ctrlc_handler", "macros"] }
dptree = "0.3"
dotenv = "0.15"
log = "0.4"
pretty_env_logger = "0.5"
