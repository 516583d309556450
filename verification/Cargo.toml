[package]
name = "pandascore"
version = "0.1.0"
edition = "2021"
publish = false

[dependencies]
bon = "2"
compact_str = { version = "0.8", features = ["serde"] }
linkify = "0.10"
petgraph = "0.6"
reqwest = { version = "0.12", default-features = false }
serde = { version = "1", features = ["derive"] }
serde_json = "1"
serde_path_to_error = "0.1"
thiserror = "1"
time = { version = "0.3", features = ["formatting", "macros", "parsing", "serde"] }
tower = { version = "0.5", features = ["util"] }
url = "2"
