[package]
name = "file_server"
version = "0.1.0"
edition = "2021"
publish = false

[dependencies]
bcrypt = "*"
uuid = { version = "1", features = ["v4", "serde"] }
chrono = { version = "0.4", features = ["serde"] }
inotify = "*"
diesel = { version = "2", features = ["postgres", "uuid", "chrono", "r2d2"] }
r2d2 = "*"
dotenv = "*"
rocket = { version = "0.5", features = ["json", "secrets"] }
rocket_dyn_templates = { version = "0.2", features = ["tera"] }
serde = { version = "1", features = ["derive"] }
serde_derive = "1"
serde_json = "1"
tera = "1"
itertools = "*"
fake = "*"
