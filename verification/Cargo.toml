[package]
name = "vcpctl"
version = "0.1.0"
edition = "2021"
publish = false

[dependencies]
regex = "=1.13.1"
mccs = "=0.1.3"
mccs-caps = "=0.1.3"
mccs-db = "=0.1.3"
edid = "=0.3.0"
ddc = "=0.2.2"
ddc-i2c = { version = "=0.2.2", features = ["with-linux"] }
crossterm = "=0.29.0"
ratatui = "=0.30.2"
tachyonfx = "=0.25.2"
serde = { version = "=1.0.229", features = ["derive"] }
serde_json = "=1.0.154"
dirs = "=7.0.0"
log = { version = "=0.4.35", features = ["std"] }
