[package]
name = "tmdb_search"
version = "0.1.0"
edition = "2021"
publish = false

[dependencies]
colored = "2"
crossterm = { version = "0.28", default-features = false }
dialoguer = { version = "0.11", default-features = false }
dotenv = "0.15"
linebreak = "0.3"
reqwest = { version = "0.12", default-features = false, features = ["json", "default-tls"] }
serde = { version = "1", features = ["derive"] }
tokio = { version = "1", features = ["macros", "rt-multi-thread"] }
urlencoding = "2"
