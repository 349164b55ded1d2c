[package]
name = "duxcore"
version = "0.1.0"
edition = "2021"
publish = false

[dependencies]
serde = "=1.0.229"
serde_json = "=1.0.151"
serde_yaml = "=0.9.34"
tera = { version = "=2.4.0", default-features = false, features = ["preserve_order"] }
ssh2 = "=0.9.6"
rayon = "=1.12.0"
chrono = "=0.4.45"
sha2 = "=0.11.0"
machineid-rs = "=1.2.4"
