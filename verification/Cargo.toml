[package]
name = "airpodsd"
version = "0.1.0"
edition = "2021"
publish = false

[dependencies]
bluer = { version = "*", features = ["bluetoothd", "l2cap"] }
ksni = "*"
mpris = "*"
tokio = { version = "*", features = ["sync", "time", "rt-multi-thread", "macros"] }
