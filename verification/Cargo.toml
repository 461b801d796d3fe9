[package]
name = "route_proxy"
version = "0.1.0"
edition = "2021"
publish = false

[dependencies]
actix-cors = "=0.7.2"
actix-web = { version = "=4.18.1", default-features = false, features = ["macros", "cookies"] }
bytes = "=1.12.1"
chrono = "=0.4.45"
clap = { version = "=4.6.7", features = ["derive"] }
futures-core = "=0.3.34"
futures-util = "=0.3.34"
log = "=0.4.34"
reqwest = { version = "=0.12.28", features = ["cookies", "stream"] }
serde = { version = "=1.0.229", features = ["derive"] }
serde_yaml = "=0.9.34"
tracing = "=0.1.44"
tracing-subscriber = "=0.3.23"
