[package]
name = "hank_pdk"
version = "0.1.0"
edition = "2021"
publish = false

[dependencies]
hank-types = "=0.1.54"
extism-pdk = "=1.4.1"
extism-manifest = "=1.30.0"
prost = "=0.13.5"
serde = "=1.0.229"
serde_json = "=1.0.151"
uuid = { version = "=1.27.0", features = ["v4"] }
