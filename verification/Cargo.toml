[package]
name = "irc_chat"
version = "0.1.0"
edition = "2021"
publish = false

[dependencies]
irc = { version = "*", default-features = false }
cursive = { version = "*", default-features = false, features = ["crossterm-backend"] }
tokio = { version = "*", features = ["rt-multi-thread"] }
futures = "*"
thiserror = "*"
