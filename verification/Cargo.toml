[package]
name = "teo"
version = "0.1.0"
edition = "2021"
publish = false

[dependencies]
regex = "1"
chrono = "0.4"
serde_json = "1"
actix-web = { version = "4", default-features = false }
actix-http = { version = "3", default-features = false }
actix-multipart = { version = "0.6", default-features = false }
futures-util = "0.3"
async-trait = "0.1"
colored = "2"
indexmap = "2"
