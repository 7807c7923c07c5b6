[package]
name = "terse"
version = "0.1.0"
edition = "2021"
publish = false

[dependencies]
anyhow = "*"
bytesize = "*"
capitalize = "*"
clap = { version = "*", features = ["derive"] }
colored = "*"
crossterm = "*"
directories = "*"
parking_lot = "*"
ratatui = "*"
reqwest = { version = "*", default-features = false, features = ["blocking", "json"] }
serde = { version = "*", features = ["derive"] }
serde_json = "*"
text_io = "*"
thiserror = "*"
url = "*"
