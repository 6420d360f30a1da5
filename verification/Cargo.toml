[package]
name = "agproc"
version = "0.1.0"
edition = "2021"
publish = false

[dependencies]
anyhow = "1"
clap = { version = "4", features = ["derive", "env"] }
dotenvy = "0.15"
nix = { version = "0.30", features = ["fs", "poll", "process", "signal", "term"] }
serde = { version = "1", features = ["derive"] }
serde_json = "1"
toml = "*"
