[package]
name = "torrent_api"
version = "0.1.0"
edition = "2021"
publish = false

[dependencies]
regex = "1"
distance = "*"
urlencoding = "*"
url = "2"
multimap = "*"
bytesize = "*"
chrono = "0.4"
scraper = "*"
serde = { version = "1", features = ["derive"] }
serde_json = "1"
surf = { version = "2", default-features = false, features = ["h1-client-rustls"] }
futures = "0.3"
tokio = { version = "1", features = ["time", "rt", "macros"] }
log = "0.4"
async-trait = "*"
