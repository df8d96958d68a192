[package]
name = "geojson_rstar"
version = "0.1.0"
edition = "2021"
publish = false

[dependencies]
geo = "=0.19.0"
geojson = "=0.24.2"
rstar = "=0.8.4"
serde_json = "=1.0.151"
