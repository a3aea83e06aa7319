[package]
name = "echoes"
version = "0.1.0"
edition = "2021"
publish = false

[dependencies]
rtrb = "=0.4.0"
rubato = "=0.16.2"
hound = "=3.5.1"
voice_activity_detector = "=0.2.1"
cpal = "=0.15.3"
rdev = "=0.5.3"
serde = { version = "=1.0.229", features = ["derive"] }
toml = "=1.1.8"
directories = "=6.0.0"
