[package]
name = "fwatch"
version = "0.1.0"
edition = "2021"
publish = false

[dependencies]
clap = "2"
futures = "0.3"
notify = "5"
os_pipe = "0.9"
regex = "1"
shared_child = "0.3"
termion = "1.5"
tokio = { version = "1", features = ["macros", "rt-multi-thread"] }
