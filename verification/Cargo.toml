[package]
name = "paperazzi"
version = "0.1.0"
edition = "2021"
publish = false

[dependencies]
serde_json = "*"
url = "*"
select = "*"
serde = { version = "*", features = ["derive"] }
clap = { version = "*", features = ["derive"] }
crossterm = "*"
webbrowser = "*"
reqwest = { version = "*", default-features = false, features = ["blocking", "query"] }
