[package]
name = "poor_jimmy"
version = "0.1.0"
edition = "2021"
publish = false

[dependencies]
regex = "1"
reqwest = { version = "0.11", default-features = false }
serenity = { version = "0.11", default-features = false, features = ["builder", "cache", "client", "gateway", "http", "model", "rustls_backend", "utils", "voice"] }
songbird = { version = "0.3", features = ["builtin-queue", "yt-dlp"] }
tokio = { version = "1", features = ["macros", "process", "rt-multi-thread", "time"] }
