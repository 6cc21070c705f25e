[package]
name = "autonomous_navigation"
version = "0.1.0"
edition = "2021"
publish = false

[dependencies]
axum = "0.7"
hifitime = "4"
nalgebra = "=0.35.0"
rand = "0.8"
rand_distr = "0.4"
rayon = "1"
serde_json = "1"
tokio = { version = "1", features = ["net", "rt-multi-thread"] }
