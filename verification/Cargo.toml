[package]
name = "project_oculus"
version = "0.1.0"
edition = "2021"
publish = false

[dependencies]
serde_json = "1"
serde = { version = "1", features = ["derive"] }
urlencoding = "2"
base64 = "*"
tokio = { version = "1", features = ["macros", "rt-multi-thread", "time"] }
reqwest = { version = "*", default-features = false, features = ["json"] }
thirtyfour = "*"
