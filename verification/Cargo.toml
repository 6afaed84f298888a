[package]
name = "tun_playground"
version = "0.1.0"
edition = "2021"
publish = false

[dependencies]
bincode = "1"
serde = { version = "1", features = ["derive"] }
serde_derive = "1"
tokio = { version = "1", features = ["full"] }
tokio-util = { version = "0.7", features = ["codec"] }
futures = "0.3"
async-trait = "0.1"
log = "0.4"
clap = { version = "4", features = ["derive"] }
quinn = { version = "0.11", default-features = false, features = ["runtime-tokio", "rustls-ring", "log"] }
rustls = { version = "0.23", default-features = false, features = ["ring", "std", "logging", "tls12"] }
rcgen = { version = "0.13", default-features = false, features = ["crypto", "ring", "pem"] }
tun = { version = "0.7", features = ["async"] }
tappers = "*"
netns-rs = "*"
packet = "0.1"
bollard = "*"
