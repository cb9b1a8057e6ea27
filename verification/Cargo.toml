[package]
name = "dust_orbit"
version = "0.1.0"
edition = "2021"
publish = false

[dependencies]
sha2 = "=0.11.1"
hex = "=0.4.3"
rand = "=0.10.3"
uuid = { version = "=1.29.1", features = ["v7"] }
chrono = "=0.4.45"
axum = "=0.8.9"
axum-extra = { version = "=0.12.6", features = ["cookie"] }
tokio = { version = "=1.54.1", features = ["full"] }
sqlx = { version = "=0.9.0", default-features = false, features = ["runtime-tokio", "postgres", "uuid", "chrono", "migrate"] }
mongodb = "=3.9.1"
serde = { version = "=1.0.229", features = ["derive"] }
serde_json = { version = "=1.0.154", features = ["preserve_order"] }
jsonwebtoken = { version = "=11.1.0", features = ["rust_crypto"] }
lettre = { version = "=0.11.23", default-features = false, features = ["builder", "smtp-transport", "pool", "hostname", "tokio1-rustls-tls"] }
time = "=0.3.55"
dotenvy = "=0.15.7"
tower_governor = "=0.8.0"
tower-http = { version = "=0.7.1", features = ["cors"] }
wasm-bindgen = "=0.2.130"
