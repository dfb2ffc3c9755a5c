[package]
name = "binstalk"
version = "0.1.0"
edition = "2021"
publish = false

[dependencies]
bytes = "1"
bzip2 = "0.4"
flate2 = "1"
futures-util = { version = "0.3", default-features = false, features = ["std"] }
httpdate = "1"
log = "0.4"
reqwest = { version = "0.11", default-features = false, features = ["rustls-tls", "stream"] }
tar = "0.4"
tokio = { version = "1", features = ["sync", "time"] }
tower = { version = "0.4", features = ["limit", "util"] }
url = "2"
xz2 = "0.1"
zip = { version = "0.6", default-features = false, features = ["deflate", "bzip2", "zstd"] }
zstd = "0.11"
