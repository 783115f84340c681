[package]
name = "vk_mirror"
version = "0.1.0"
edition = "2021"
publish = false

[dependencies]
anyhow = "*"
argh = "*"
chrono = { version = "*", features = ["serde"] }
diesel = { version = "*", features = ["sqlite", "returning_clauses_for_sqlite_3_35"] }
dptree = "*"
garde = { version = "*", features = ["derive"] }
libsqlite3-sys = { version = "*", features = ["bundled"] }
log = "*"
once_cell = "*"
regex = "=1.13.1"
reqwest = { version = "=0.11.27", default-features = false, features = ["json"] }
serde = { version = "*", features = ["derive"] }
serde_json = "*"
serde_urlencoded = "*"
simple_logger = "*"
takecell = "=0.1.1"
teloxide = { version = "=0.12.2", default-features = false, features = ["macros"] }
tokio = { version = "*", features = ["macros", "rt-multi-thread", "signal", "sync", "time"] }
tokio-util = { version = "=0.7.19", features = ["rt"] }
toml = "*"
url = "*"
