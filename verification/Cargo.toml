[package]
name = "runnerbuddy"
version = "0.1.0"
edition = "2021"
publish = false

[dependencies]
directories = "5"
flate2 = "1"
futures-util = "0.3"
hex = "0.4"
hostname = "0.4"
keyring = "2"
plist = "1"
regex = "1"
reqwest = { version = "0.12", default-features = false, features = ["json", "stream", "rustls-tls"] }
serde = { version = "1", features = ["derive"] }
serde_json = "1"
sha2 = "0.10"
tar = "0.4"
thiserror = "1"
time = { version = "0.3", features = ["formatting"] }
tokio = { version = "1", features = ["time"] }
tracing = "0.1"
tracing-appender = "0.2"
tracing-subscriber = { version = "0.3", features = ["env-filter"] }
uuid = { version = "1", features = ["v4"] }
zip = "0.6"
