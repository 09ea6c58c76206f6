[package]
name = "discord_client"
version = "0.1.0"
edition = "2021"
publish = false

[dependencies]
serde = { version = "1", features = ["derive"] }
serde_json = "1"
serde_path_to_error = "*"
tokio = { version = "1", features = ["full"] }
futures-util = { version = "*", features = ["sink"] }
wreq = { version = "*", features = ["json", "cookies", "websocket", "gzip", "brotli", "deflate", "zstd"] }
wreq-util = "*"
zlib_stream = "*"
chrono = { version = "*", features = ["serde"] }
current_locale = "*"
iana-time-zone = "*"
regex = "*"
