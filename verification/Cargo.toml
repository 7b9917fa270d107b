[package]
name = "sea_orm"
version = "0.1.0"
edition = "2021"
publish = false

[dependencies]
async-trait = "=0.1.64"
futures = "0.3"
heck = "=0.3.3"
proc-macro2 = "=1.0.107"
quote = "=1.0.47"
sea-query = { version = "=0.16.6", default-features = false, features = ["sqlx-postgres", "sqlx-sqlite", "with-chrono"] }
sqlx = { version = "=0.5.13", default-features = false, features = ["postgres", "sqlite", "chrono", "runtime-tokio-rustls"] }
syn = { version = "=1.0.109", features = ["full"] }

[dev-dependencies]
tokio = { version = "=1.54.1", features = ["rt"] }
