[package]
name = "pgbridge"
version = "0.1.0"
edition = "2021"
publish = false

[dependencies]
pg-embed = "*"
portable-pty = "*"
rustyline = "*"
sqlx = { version = "*", default-features = false, features = ["postgres", "runtime-tokio"] }
tokio = { version = "*", features = ["full"] }
