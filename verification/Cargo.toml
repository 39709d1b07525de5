[package]
name = "iasql_cli"
version = "0.1.0"
edition = "2021"
publish = false

[dependencies]
serde_json = "1"
serde = { version = "1", features = ["derive"] }
serde_ini = "0.2"
hyper = { version = "0.14", features = ["full"] }
tokio = { version = "1", features = ["full"] }
dialoguer = "0.9"
webbrowser = "0.7"
clap = "2"
indicatif = "0.16"
ascii_table = "3"
