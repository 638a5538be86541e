[package]
name = "ds_thread_player"
version = "0.1.0"
edition = "2021"
publish = false

[dependencies]
url = "=2.5.8"
yaml-rust2 = "=0.10.4"
tokio = { version = "=1.54.1", features = ["rt-multi-thread", "macros", "sync", "time"] }
tokio-postgres = { version = "=0.7.18", features = ["with-chrono-0_4"] }
serenity = { version = "=0.12.5", default-features = false, features = ["builder", "cache", "chrono", "client", "gateway", "model", "http", "utils", "rustls_backend"] }
songbird = { version = "=0.5.0", features = ["builtin-queue"] }
reqwest = { version = "=0.12.28", default-features = false, features = ["rustls-tls"] }
youtube_dl = "=0.10.0"
tracing = "0.1"
tracing-subscriber = { version = "=0.3.23", default-features = false, features = ["fmt", "std"] }
chrono = { version = "=0.4.45", default-features = false, features = ["std"] }
dotenv = "0.15"
