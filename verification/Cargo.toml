[package]
name = "guntamatic"
version = "0.1.0"
edition = "2021"
publish = false

[dependencies]
regex = "1"
serde = { version = "1", features = ["derive"] }
serde_json = "1"
serde_qs = "*"
serde_repr = "*"
clap = { version = "4", features = ["derive"] }
tokio = { version = "1", features = ["macros", "rt-multi-thread"] }
anyhow = "1"
log = "0.4"
pretty_env_logger = "*"
ctrlc = "*"
flume = "*"
influxdb-client = "*"
reqwest = { version = "*", default-features = false, features = ["json", "rustls-tls"] }
surf = { version = "2", default-features = false, features = ["h1-client"] }
smol = "*"
http-types = "2"

[dev-dependencies]
serde_json = "1"
