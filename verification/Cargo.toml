[package]
name = "crane"
version = "0.1.0"
edition = "2021"
publish = false

[dependencies]
clap = "2"
ctrlc = "3"
failure = "0.1"
git2 = "0.19"
rand = "0.6"
reqwest = "0.9"
rusoto_core = "0.42"
rusoto_s3 = "0.42"
serde = { version = "1", features = ["derive"] }
serde_json = "1"
termion = "1.5"
tui = "0.5"
