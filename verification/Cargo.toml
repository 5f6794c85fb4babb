[package]
name = "oauth_server"
version = "0.1.0"
edition = "2021"
publish = false

[dependencies]
uuid = { version = "1", features = ["v4"] }
serde = { version = "1", features = ["derive"] }
actix-web = { version = "4", default-features = false, features = ["macros"] }
sea-orm = { version = "0.9", default-features = false, features = ["macros", "sqlx-postgres", "runtime-actix-rustls", "with-json"] }
sea-orm-migration = { version = "0.9", default-features = false, features = ["runtime-actix-rustls", "sqlx-postgres"] }
tera = { version = "1", default-features = false }
dotenv = "0.15"
lazy_static = "1"
tracing-subscriber = "0.3"
async-trait = "0.1"
