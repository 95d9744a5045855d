[package]
name = "minipeer"
version = "0.1.0"
edition = "2021"
publish = false

[dependencies]
lightning = "*"
secp256k1 = { version = "*", features = ["rand", "std"] }
bitcoin = "*"
tokio = { version = "*", features = ["net", "rt-multi-thread", "macros", "time", "sync"] }

[dev-dependencies]
hex = "*"
