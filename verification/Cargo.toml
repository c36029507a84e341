[package]
name = "jira_tui"
version = "0.1.0"
edition = "2021"
publish = false

[dependencies]
chrono = "0.4"
serde = { version = "1", features = ["derive"] }
serde_json = "1"
reqwest = { version = "0.12", default-features = false, features = ["json"] }
tokio = { version = "1", features = ["macros", "rt-multi-thread", "sync", "time"] }
async-trait = "0.1"
crossterm = { version = "0.27", features = ["event-stream"] }
ratatui = "0.26"
futures = "0.3"
log = "0.4"
env_logger = "0.11"
dotenv = "0.15"
thiserror = "1"
