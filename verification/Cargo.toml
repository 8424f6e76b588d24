[package]
name = "dracula_covid19"
version = "0.1.0"
edition = "2021"
publish = false

[dependencies]
chrono = "*"
csv = "*"
parquet = "*"
parquet_derive = "*"
reqwest = "*"
rusoto_core = "*"
rusoto_glue = "*"
rusoto_s3 = "*"
serde = { version = "*", features = ["derive"] }
tokio = { version = "*", features = ["macros", "rt-multi-thread"] }
