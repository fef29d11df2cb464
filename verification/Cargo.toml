[package]
name = "archive_site"
version = "0.1.0"
edition = "2021"
publish = false

[dependencies]
hex = "0.4"
md5 = "0.7"
argon2 = "0.5"
rand = "0.8"
dotenvy = "0.15"
thiserror = "1"
rocket = { version = "0.5", features = ["json", "secrets"] }
rocket_db_pools = { version = "0.2", features = ["deadpool_postgres"] }
rocket_dyn_templates = { version = "0.2", features = ["tera"] }
