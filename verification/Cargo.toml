[package]
name = "notify_rust"
version = "0.1.0"
edition = "2021"
publish = false

[dependencies]
zbus = "4"
zvariant = "4"
zvariant_derive = "4"
async-std = "1"
futures-util = "0.3"
event-listener = "5"
async-trait = "0.1"
async-lock = "3"
serde = { version = "1", features = ["derive"] }
thiserror = "1"
displaydoc = "0.2"
image = { version = "0.24", default-features = false, features = ["png", "jpeg"] }
clap = "2"
log = "0.4"
lazy_static = "1"
dbus = "0.9"
