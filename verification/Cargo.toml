[package]
name = "converty"
version = "1.0.0"
edition = "2021"
publish = false

[dependencies]
uuid = { version = "=1.29.0", features = ["v4"] }
chrono = { version = "=0.4.45", default-features = false, features = ["std", "clock"] }
mime_guess = "=2.0.5"
sha2 = "=0.10.9"
base64 = "=0.22.1"
rand = "=0.8.8"
urlencoding = "=2.1.3"
image = { version = "=0.25.10", default-features = false, features = ["png", "jpeg", "gif", "bmp", "webp", "tiff", "ico"] }
governor = "0.6"
serde = { version = "=1.0.229", features = ["derive"] }
serde_json = "=1.0.154"
tokio = { version = "=1.54.1", features = ["rt-multi-thread", "macros", "sync", "time", "net", "fs"] }
tokio-stream = { version = "=0.1.19", features = ["sync"] }
axum = { version = "=0.7.9", features = ["multipart"] }
tower-http = { version = "=0.5.2", features = ["cors", "trace"] }
tracing = "=0.1.44"
tracing-subscriber = "=0.3.23"
sqlx = { version = "=0.8.6", default-features = false, features = ["runtime-tokio", "sqlite"] }
reqwest = { version = "=0.12.28", default-features = false, features = ["json"] }
zip = { version = "=2.6.1", default-features = false, features = ["deflate"] }
tempfile = "=3.27.0"
printpdf = "=0.7.0"
dotenvy = "=0.15.7"
resvg = { version = "=0.45.1", default-features = false }
