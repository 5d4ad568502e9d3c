[package]
name = "eggchan"
version = "0.1.0"
edition = "2021"
publish = false

[dependencies]
multipart = { version = "0.18", default-features = false, features = ["server"] }
rocket = { version = "0.5", features = ["json"] }
diesel = { version = "1.4", features = ["postgres", "chrono"] }
r2d2 = "0.8"
r2d2-diesel = "1.0"
chrono = { version = "0.4", features = ["serde"] }
serde = { version = "1", features = ["derive"] }
serde_derive = "1"
serde_json = "1"
clap = "2"
prettytable-rs = "0.10"
dotenv = "0.15"
failure = "0.1"
futures = "0.3"
actix = "0.13"
