[package]
name = "biblioteca"
version = "0.1.0"
edition = "2021"
publish = false

[dependencies]
cacache = "=13.1.0"
hayagriva = { version = "=0.10.1", features = ["biblatex", "archive"] }
serde_json = "=1.0.151"
fs-err = "=3.3.2"
clap = { version = "=4.6.7", features = ["derive"] }

[dev-dependencies]
tempfile = "=3.27.0"
filetime = "=0.2.29"
