[package]
name = "serde-geozero"
version = "0.1.0"
edition = "2021"
publish = false

[dependencies]
geo = { version = "*", default-features = false, features = ["use-serde"] }
geozero = { version = "*", default-features = false, features = ["with-geo", "with-geojson"] }
hashbrown = { version = "*", features = ["serde"] }
serde = { version = "*", features = ["derive"] }
serde_json = "*"
thiserror = "*"
