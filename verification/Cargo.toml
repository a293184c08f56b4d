[package]
name = "plz"
version = "0.1.0"
edition = "2021"
publish = false

[dependencies]
libc = "0.2"
rpassword = "7"
rusqlite = { version = "0.37", features = ["bundled"] }
serde = { version = "1", features = ["derive"] }
serde_json = "1"
ureq = { version = "2", features = ["json"] }
