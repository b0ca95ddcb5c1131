[package]
name = "iced_af"
version = "0.1.0"
edition = "2021"
publish = false

[dependencies]
i18n-rizzen-yazston = "0.10"
log = "=0.4.35"
log4rs = { version = "=1.4.0", default-features = false, features = ["console_appender"] }
ron = "=0.8.1"
serde = { version = "=1.0.229", features = ["derive"] }
dirs = "=5.0.1"
chrono = { version = "=0.4.45", default-features = false, features = ["clock"] }
clap = { version = "=4.6.7", default-features = false, features = ["std", "derive", "help", "usage"] }
