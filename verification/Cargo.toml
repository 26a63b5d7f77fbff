[package]
name = "ye_olde_discord"
version = "0.1.0"
edition = "2021"
publish = false

[dependencies]
log = "=0.4.35"
chrono = "=0.4.45"
lazy_static = "=1.5.1"
tui = { version = "=0.19.0", default-features = false, features = ["crossterm"] }
async-std = { version = "=1.13.2", features = ["attributes"] }
async-tungstenite = { version = "=0.35.0", features = ["async-std-runtime", "async-native-tls"] }
async-native-tls = "=0.6.0"
futures = "=0.3.34"
serde = { version = "=1.0.229", features = ["derive"] }
serde_json = "=1.0.154"
ctrlc = "=3.5.2"
dotenv = "=0.15.0"
thiserror = "=1.0.69"
cursive = { version = "=0.21.1", default-features = false, features = ["crossterm-backend"] }
cursive-flexi-logger-view = "=0.6.0"
flexi_logger = "=0.22.6"
