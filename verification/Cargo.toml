[package]
name = "burchill_postgres"
version = "0.1.0"
edition = "2021"
publish = false

[dependencies]
anyhow = "=1.0.104"
async-trait = "=0.1.92"
chrono = "=0.4.45"
log = "0.4"
quaint = { version = "=0.2.0-alpha.13", features = ["uuid-0_8", "chrono-0_4"] }
sqlx-core = { version = "=0.5.13", default-features = false, features = ["postgres", "runtime-tokio-rustls", "uuid", "chrono"] }
thiserror = "=1.0.69"
uuid = "=0.8.2"
