[package]
name = "tristate_bridge"
version = "0.1.0"
edition = "2021"
publish = false

[dependencies]
failure = "=0.1.8"
log = "=0.4.34"
pretty_env_logger = "=0.4.0"
rumqttc = "=0.2.0"
sentry = { version = "=0.20.1", default-features = false, features = ["backtrace", "contexts", "failure", "panic", "log", "env_logger", "reqwest", "rustls"] }
serde = { version = "=1.0.229", features = ["derive"] }
statsd = "=0.16.1"
toml = "=0.5.11"
