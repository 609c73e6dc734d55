[package]
name = "stonks"
version = "0.1.0"
edition = "2021"
publish = false

[dependencies]
simsearch = "*"
serde = { version = "*", features = ["derive"] }
serde_json = "*"
reqwest = { version = "0.12", features = ["json"] }
tokio = { version = "*", features = ["macros", "rt-multi-thread"] }
tungstenite = { version = "*", features = ["native-tls"] }
chrono = "*"
config = "*"
crossterm = "0.25"
tui = "*"
fern = "*"
log = "*"
num-format = "*"
