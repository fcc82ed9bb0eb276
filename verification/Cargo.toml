[package]
name = "pqc_proxy"
version = "0.1.0"
edition = "2021"
publish = false

[dependencies]
actix-cors = "*"
actix-web = "*"
base64 = "*"
pqcrypto-dilithium = "*"
pqcrypto-kyber = "*"
pqcrypto-sphincsplus = "*"
pqcrypto-traits = "*"
rand = "*"
reqwest = { version = "*", default-features = false, features = ["cookies", "gzip", "brotli", "deflate", "json"] }
serde = { version = "*", features = ["derive"] }
serde_json = "*"
sha3 = "*"
tokio = { version = "*", features = ["macros", "rt-multi-thread", "time"] }
url = "*"
