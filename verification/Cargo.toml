[package]
name = "hitster"
version = "0.1.0"
edition = "2021"
publish = false

[dependencies]
uuid = { version = "=1.29.0", features = ["v4"] }
chrono = { version = "=0.4.45", default-features = false, features = ["clock", "std"] }
html-escape = "=0.2.15"
qrcode = { version = "=0.14.1", default-features = false }
png = "=0.17.16"
base64 = "=0.22.1"
image = { version = "=0.25.10", default-features = false }
anyhow = "1"
serde = { version = "1", features = ["derive"] }
serde_json = "1"
tokio = { version = "1", features = ["rt-multi-thread", "macros", "fs", "sync"] }
tracing = "0.1"
tracing-subscriber = { version = "0.3", features = ["env-filter"] }
futures = "0.3"
futures-util = "0.3"
sqlx = { version = "=0.8.6", default-features = false, features = ["sqlite", "runtime-tokio", "chrono", "uuid", "macros", "migrate"] }
rspotify = "=0.15.3"
oxidize-pdf = "=5.5.6"
config = "=0.14.1"
printpdf = { version = "0.7", default-features = false }
