[package]
name = "synology_filestation_tools"
version = "0.1.0"
edition = "2021"
publish = false

[dependencies]
rusqlite = { version = "*", features = ["bundled"] }
urlencoding = "*"
clap = "*"
rpassword = "*"
tokio = { version = "*", features = ["macros", "rt-multi-thread"] }
reqwest = { version = "*", default-features = false }
hostname = "*"
app_dirs2 = "*"
anyhow = "*"
tracing = "*"
tracing-appender = "*"
tracing-subscriber = "*"
