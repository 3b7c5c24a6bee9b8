[package]
name = "jell_debrid"
version = "0.1.0"
edition = "2021"
publish = false

[dependencies]
env_logger = "*"
figment = { version = "*", features = ["env"] }
form_urlencoded = "*"
log = "*"
reqwest = { version = "*", default-features = false, features = ["json"] }
serde = { version = "*", features = ["derive"] }
serde_json = "*"
tokio = { version = "*", features = ["macros", "rt-multi-thread", "time"] }
