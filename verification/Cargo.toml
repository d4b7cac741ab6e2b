[package]
name = "yew_geolocation"
version = "0.1.0"
edition = "2021"
publish = false

[dependencies]
serde = "1"
serde_derive = "1"
smart-default = "*"
stdweb = { version = "=0.4.20", features = ["serde"] }
yew = { version = "=0.17.4", default-features = false, features = ["std_web", "services"] }
