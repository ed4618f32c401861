[package]
name = "metarbot"
version = "0.1.0"
edition = "2021"
publish = false

[dependencies]
glob = "0.3"
regex = "1"
irc = { version = "0.15", default-features = false, features = ["ctcp", "toml_config"] }
tokio = { version = "1", features = ["macros", "rt-multi-thread"] }
futures = "0.3"
reqwest = { version = "0.11", default-features = false, features = ["json", "rustls-tls"] }
serde = { version = "1", features = ["derive"] }
clap = "2"
failure = "0.1"
log = "0.4"
pretty_env_logger = "0.4"
