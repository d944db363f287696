[package]
name = "onlyrust"
version = "0.1.0"
edition = "2021"
publish = false

[dependencies]
rust-argon2 = "*"
chrono = "0.4"
rusqlite = { version = "*", features = ["bundled"] }
actix-web = "4"
actix-files = "*"
serde = { version = "1", features = ["derive"] }
rusoto_core = { version = "*", default-features = false, features = ["rustls"] }
rusoto_s3 = { version = "*", default-features = false, features = ["rustls"] }
sqlx = { version = "*", default-features = false, features = ["postgres", "runtime-tokio", "derive"] }
