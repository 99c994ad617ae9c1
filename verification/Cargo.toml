[package]
name = "xtui"
version = "0.3.7"
edition = "2021"
publish = false

[dependencies]
anyhow = "1"
async-trait = "0.1"
base64 = "0.22"
chrono = "0.4"
crossterm = "*"
dirs = "*"
futures-util = "0.3"
image = { version = "*", default-features = false, features = ["png", "jpeg", "gif", "webp", "bmp"] }
open = "5"
rand = "0.9"
ratatui = "*"
ratatui-image = { version = "*", default-features = false, features = ["crossterm"] }
reqwest = { version = "0.12", default-features = false, features = ["json", "rustls-tls"] }
serde = { version = "1", features = ["derive"] }
serde_json = "1"
sha2 = "0.10"
textwrap = "*"
tokio = { version = "1", features = ["rt-multi-thread", "macros", "net", "io-util", "sync", "time"] }
tokio-tungstenite = "*"
unicode-width = "*"
url = "2"
