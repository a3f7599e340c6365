[package]
name = "reconciler"
version = "0.1.0"
edition = "2021"
publish = false

[dependencies]
teloxide = "0.12"
dptree = "0.3"
tokio = { version = "1", features = ["macros", "rt-multi-thread"] }
log = "0.4"
pretty_env_logger = "0.5"
dotenv = "0.15"
takecell = "=0.1.1"
