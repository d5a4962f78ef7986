[package]
name = "base_sequencer"
version = "0.1.0"
edition = "2021"
publish = false

[dependencies]
clap = { version = "4", features = ["derive", "env"] }
thiserror = "2"
url = "2"
