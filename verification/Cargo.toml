[package]
name = "gistit"
version = "0.1.0"
edition = "2021"
publish = false

[dependencies]
bincode = "1.3"
serde = { version = "1", features = ["derive"] }
serde_json = "1"
tokio = { version = "1", features = ["net", "rt", "time"] }
url = "2"
clap = "3"
reqwest = { version = "0.11", default-features = false, features = ["json", "rustls-tls"] }
bat = { version = "*", default-features = false, features = ["regex-fancy", "paging"] }
console = "0.15"
dialoguer = "*"
webbrowser = "*"

[dev-dependencies]
tempfile = "3"
