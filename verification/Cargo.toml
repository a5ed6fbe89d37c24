[package]
name = "currency_bot"
version = "0.1.0"
edition = "2021"
publish = false

[dependencies]
async-trait = "=0.1.92"
dotenvy = "=0.15.7"
log = "=0.4.34"
pretty_env_logger = "=0.5.0"
reqwest = "=0.12.28"
serde = { version = "=1.0.229", features = ["derive"] }
serde_json = "=1.0.154"
# Not used directly. teloxide-core depends on it, and its release 0.1.2 needs a
# newer compiler than the other crates here do, so it is held below that.
takecell = "<0.1.2"
teloxide = "=0.17.0"
thiserror = "=2.0.21"
tokio = { version = "=1.54.1", features = ["macros", "rt-multi-thread", "time"] }
