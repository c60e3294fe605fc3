[package]
name = "caterpie"
version = "0.1.0"
edition = "2021"
publish = false

[dependencies]
serenity = { version = "=0.12.5", default-features = false, features = ["builder", "client", "collector", "gateway", "http", "model", "utils", "rustls_backend"] }
octocrab = "=0.44.1"
sea-orm = { version = "=2.0.4", default-features = false, features = ["macros"] }
tokio = { version = "=1.53.2", features = ["macros", "rt-multi-thread", "time"] }
chrono = { version = "=0.4.45", default-features = false, features = ["clock", "std"] }
serde = { version = "*", features = ["derive"] }
log = "*"
log4rs = { version = "=1.4.0", default-features = false, features = ["config_parsing", "yaml_format", "console_appender", "file_appender"] }
