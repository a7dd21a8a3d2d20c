[package]
name = "json_path_extractor"
version = "0.1.0"
edition = "2021"
publish = false

[dependencies]
actix-web = { version = "4", default-features = false }
futures-util = "0.3"
serde = "1"
serde_json = "1"
serde_path_to_error = "0.1"
