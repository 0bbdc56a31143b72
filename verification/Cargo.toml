[package]
name = "word_index"
version = "0.1.0"
edition = "2021"
publish = false

[dependencies]
tantivy = "=0.21.1"
tantivy-jieba = "=0.10.0"
# Held back for tantivy: its zstd-safe 6 does not compile against a later zstd-sys.
zstd-sys = "=2.0.9"
md5 = "=0.7.0"
encoding = "=0.2.33"
async-walkdir = "=2.2.0"
tokio = { version = "=1.54.1", features = ["fs", "io-util", "process", "rt", "macros"] }
tokio-stream = "=0.1.19"
serde = { version = "=1.0.229", features = ["derive"] }
serde_json = "=1.0.154"
snafu = "=0.7.5"
tracing = "=0.1.44"
tracing-subscriber = { version = "=0.3.23", features = ["fmt", "time", "local-time"] }
tracing-appender = "=0.2.5"
time = { version = "=0.3.55", features = ["macros", "local-offset"] }

[dev-dependencies]
tempfile = "=3.27.0"
