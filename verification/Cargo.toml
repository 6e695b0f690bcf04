[package]
name = "vkwave"
version = "0.1.0"
edition = "2021"
publish = false

[dependencies]
async-recursion = "1"
dotenv = "0.15"
futures = "0.3"
log = "0.4"
pretty_env_logger = "0.4"
proc-macro2 = "1"
quote = "1"
reqwest = { version = "0.11", default-features = false, features = ["json"] }
serde = { version = "1", features = ["derive"] }
serde_json = "1"
syn = { version = "1", features = ["full"] }
thiserror = "1"
tokio = { version = "1", features = ["rt-multi-thread", "macros", "sync"] }
