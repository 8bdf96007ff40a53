[package]
name = "cima_rs"
version = "0.1.0"
edition = "2021"
publish = false

[dependencies]
anyhow = "*"
clap = { version = "*", features = ["derive"] }
futures = "*"
num_cpus = "*"
reqwest = { version = "*", default-features = false, features = ["rustls-tls"] }
tokio = { version = "*", features = ["macros", "rt-multi-thread"] }
zip = { version = "*", default-features = false, features = ["deflate"] }

[dev-dependencies]
csv = "*"
