[package]
name = "todo_engine"
version = "0.1.0"
edition = "2021"
publish = false

[dependencies]
failure = "0.1"
serde = { version = "1", features = ["derive"] }
serde_json = "1"
stdweb = "0.4"
yew = "0.6"
