[package]
name = "wfh_bot"
version = "0.1.0"
edition = "2021"
publish = false

[dependencies]
chrono = "=0.4.45"
url = "=1.7.2"
serde = "=1.0.229"
serde_derive = "=1.0.229"
serde_json = "=1.0.154"
telegram-bot = "=0.6.3"
tokio-core = "=0.1.18"
futures = "=0.1.31"
hyper = "=0.10.16"
hyper-native-tls = "=0.3.0"
yup-oauth2 = "=1.0.12"
formdata = "=0.12.3"
log = "=0.3.9"
env_logger = "=0.4.3"
