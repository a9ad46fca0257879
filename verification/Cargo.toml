[package]
name = "mpris_controls"
version = "0.1.0"
edition = "2021"
publish = false

[dependencies]
dbus = { version = "0.9", features = ["vendored"] }
dbus-crossroads = "0.5"
