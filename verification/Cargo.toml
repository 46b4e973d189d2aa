[package]
name = "beep_sfu"
version = "0.1.0"
edition = "2021"
publish = false

[dependencies]
actix-cors = "=0.7.2"
actix-web = "=4.15.0"
bytes = "=1.12.1"
clap = { version = "=4.6.7", features = ["derive"] }
crossbeam-channel = "=0.5.17"
log = "=0.4.34"
rtc = "=0.21.0"
sansio = "=1.0.1"
serde = { version = "=1.0.229", features = ["derive"] }
serde_derive = "=1.0.229"
serde_json = "=1.0.151"
sfu = "=0.5.0"
systemstat = "=0.2.7"
wg = "=1.1.0"
