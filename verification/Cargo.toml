[package]
name = "multer-derive"
version = "0.1.0"
edition = "2021"
publish = false

[dependencies]
encoding_rs = "=0.8.42"
http = "=0.2.12"
indexmap = "=2.14.2"
mime = "=0.3.17"
mime_guess = "=2.0.5"
multer = "=2.1.0"
proc-macro2 = "=1.0.107"
quote = "=1.0.47"
serde_json = "=1.0.154"
syn = { version = "=2.0.119", features = ["full"] }
thiserror = "=1.0.69"
time = { version = "0.3", features = ["macros", "parsing"] }
uuid = "1"

[dev-dependencies]
futures = "=0.3.34"
