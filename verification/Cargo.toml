[package]
name = "session_gateway"
version = "0.1.0"
edition = "2021"
publish = false

[dependencies]
actix-cors = "*"
actix-identity = "*"
actix-session = { version = "*", features = ["cookie-session"] }
actix-web = { version = "4", default-features = false, features = ["macros", "cookies", "secure-cookies"] }
actix-web-lab = "*"
aws-config = { version = "*", default-features = false }
aws-credential-types = { version = "*", features = ["hardcoded-credentials"] }
aws-sdk-s3 = { version = "*", default-features = false }
base64 = "0.21"
cookie = { version = "0.16", features = ["signed"] }
env_logger = { version = "*", default-features = false }
ldap3 = { version = "*", default-features = false }
log = "0.4"
reqwest = { version = "*", default-features = false }
serde = { version = "1", features = ["derive"] }
serde_json = "1"
thiserror = "*"
