[package]
name = "cargo_odra"
version = "0.1.0"
edition = "2021"
publish = false

[dependencies]
regex = "=1.12.4"
convert_case = "=0.6.0"
heck = "=0.4.1"
toml = "=0.5.11"
cargo_toml = "=0.15.3"
serde = { version = "=1.0.229", features = ["derive"] }
thiserror = "=1.0.69"
clap = { version = "=3.2.25", features = ["derive"] }
ureq = { version = "=2.12.1", features = ["json"] }
chrono = "=0.4.45"
comfy-table = "=6.2.0"
glob = "=0.3.4"
prettycli = "=0.1.1"
rm_rf = "=0.6.2"
