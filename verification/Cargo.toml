[package]
name = "ai_waifu"
version = "0.1.0"
edition = "2021"
publish = false

[dependencies]
async-trait = "=0.1.92"
bytes = "=1.12.1"
chatgpt_rs = { version = "=1.2.3", default-features = false, features = ["json", "streams"] }
clap = { version = "=4.6.7", default-features = false, features = ["std", "derive", "help", "usage"] }
dagc = "=0.1.1"
dasp = "=0.11.0"
futures-util = "=0.3.34"
hound = "=3.5.1"
noise-gate = "=0.1.0"
num2words = "=1.2.0"
rand = "=0.8.8"
regex = "=1.13.1"
rustyline-async = "=0.3.3"
reqwest = { version = "=0.11.27", default-features = false, features = ["json"] }
serde = { version = "=1.0.229", features = ["derive"] }
serde_json = "=1.0.154"
serenity = { version = "=0.11.7", default-features = false, features = ["client", "gateway", "model", "cache", "http", "rustls_backend", "voice"] }
songbird = { version = "=0.3.2", default-features = false, features = ["serenity-rustls", "driver", "gateway"] }
twitch-irc = { version = "=5.0.1", default-features = false, features = ["transport-tcp", "transport-tcp-rustls-webpki-roots"] }
tokio = { version = "=1.54.1", features = ["full"] }
tracing = "=0.1.44"
tracing-subscriber = { version = "=0.3.23", features = ["env-filter"] }
