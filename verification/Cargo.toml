[package]
name = "minelander"
version = "1.0.0"
edition = "2021"
publish = false

[dependencies]
serde_json = "1"
md5 = "0.7"
uuid = "1"
serde = { version = "1", features = ["derive"] }
reqwest = { version = "*", default-features = false, features = ["blocking", "rustls-tls", "json"] }
flate2 = "*"
tar = "*"
zip = { version = "*", default-features = false, features = ["deflate"] }
shared_child = "*"
