[package]
name = "mega"
version = "0.1.0"
edition = "2021"
publish = false

[dependencies]
radix_trie = "*"
serde = { version = "*", features = ["derive"] }
serde_json = "*"
reqwest = { version = "*", default-features = false, features = ["blocking", "json"] }
