[package]
name = "e-signature-api"
version = "0.1.0"
edition = "2021"
publish = false

[dependencies]
actix-multipart = "0.7"
actix-web = "4"
base64 = "=0.22.1"
bcrypt = "=0.15.1"
chrono = { version = "=0.4.45", features = ["serde"] }
dotenv = "0.15"
dptree = "0.3"
futures-util = "0.3"
jsonwebtoken = "=9.3.1"
rand = "=0.8.8"
reqwest = { version = "0.11", default-features = false, features = ["json", "rustls-tls"] }
sanitize-filename = "=0.5.0"
serde = { version = "1", features = ["derive"] }
serde_json = "=1.0.154"
sha2 = "=0.10.9"
sqlx = { version = "0.8", default-features = false, features = ["runtime-tokio", "postgres", "chrono", "derive", "migrate"] }
takecell = "<0.1.2"
teloxide = { version = "0.13", default-features = false, features = ["macros", "ctrlc_handler", "rustls"] }
tokio = { version = "1", features = ["rt-multi-thread", "macros"] }
uuid = { version = "=1.29.0", features = ["v4"] }
