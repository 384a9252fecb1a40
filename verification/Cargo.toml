[package]
name = "salesvc"
version = "0.1.0"
edition = "2021"
publish = false

[dependencies]
hmac = "*"
sha2 = "*"
time = "*"
tonic = "*"
prost = "*"
prost-types = "*"
tokio = { version = "*", features = ["full"] }
tokio-stream = { version = "*", features = ["net"] }
tower-http = { version = "*", features = ["trace"] }
tracing = "*"
tracing-subscriber = { version = "*", features = ["env-filter"] }
envy = "*"
serde = { version = "*", features = ["derive"] }
futures-util = "*"
thiserror = "*"
