[package]
name = "fake_mail_server"
version = "0.1.0"
edition = "2021"
publish = false

[dependencies]
base64 = "0.13"
imap-codec = "0.5"
pop3-codec = "*"
smtp-codec = "*"
nom = "*"
tokio = { version = "1", features = ["net", "rt", "rt-multi-thread", "io-util", "time", "macros"] }
tokio-native-tls = "0.3"
async-compression = { version = "*", features = ["tokio", "deflate"] }
pin-project = "1"
rand = "0.8"
ron = "*"
serde = { version = "1", features = ["derive"] }
