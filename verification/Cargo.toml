[package]
name = "battlemon_ethereum"
version = "0.1.0"
edition = "2021"
publish = false

[dependencies]
axum = { version = "0.6", default-features = false, features = ["headers", "http1", "json", "tokio"] }
base64 = "0.21"
chrono = { version = "0.4", default-features = false, features = ["now"] }
config = { version = "0.13", default-features = false, features = ["yaml"] }
ethers = { version = "2", default-features = false }
eyre = "0.6"
hyper = { version = "0.14", features = ["server", "tcp", "http1"] }
jsonwebtoken = "8"
ring = "0.16"
secrecy = { version = "0.8", features = ["serde"] }
serde = { version = "1", features = ["derive"] }
serde_json = "1"
sqlx = { version = "0.7", default-features = false, features = ["runtime-tokio", "postgres", "uuid", "migrate"] }
strum = { version = "0.26", features = ["derive"] }
thiserror = "1"
tokio = { version = "1", features = ["macros", "rt-multi-thread"] }
tower = { version = "0.4", features = ["util"] }
tower-http = { version = "0.4", features = ["trace", "request-id", "util"] }
tracing = "0.1"
uuid = { version = "1", features = ["v4", "serde"] }
