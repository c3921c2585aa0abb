[package]
name = "fixit"
version = "0.1.0"
edition = "2021"
publish = false

[dependencies]
glob = "=0.3.4"
regex = "=1.13.1"
serde = { version = "=1.0.229", features = ["derive"] }
serde_json = "=1.0.151"
toml = "=1.1.7"
tokio = { version = "=1.53.2", features = ["macros", "rt-multi-thread", "fs", "process", "sync"] }
reqwest = { version = "=0.13.5", default-features = false, features = ["json", "query"] }
structopt = "=0.3.26"
directories = "=6.0.0"
