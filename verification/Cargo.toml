[package]
name = "razer_control_gui"
version = "0.1.0"
edition = "2021"
publish = false

[dependencies]
anyhow = "1"
dbus = "0.9"
gtk = "0.18"
hidapi = "2"
log = "0.4"
serde_json = "1"
