[package]
name = "jplaw_types"
version = "0.1.0"
edition = "2021"
publish = false

[dependencies]
anyhow = "*"
clap = { version = "*", features = ["derive"] }
encoding_rs = "*"
japanese_law_xml_schema = "*"
pdf-extract = "*"
quick-xml = { version = "*", features = ["async-tokio"] }
regex = "*"
serde = { version = "*", features = ["derive"] }
serde_json = "*"
thiserror = "*"
tokio = { version = "*", features = ["full"] }
tracing = "*"
tracing-subscriber = "*"
