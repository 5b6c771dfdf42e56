[package]
name = "fact"
version = "0.1.0"
edition = "2021"
publish = false

[dependencies]
anyhow = "1"
async-trait = "0.1"
aya = "0.13"
clap = { version = "4", features = ["derive", "env"] }
crossbeam = "0.8"
ctrlc = "3"
libc = "0.2"
log = "0.4"
nix = { version = "0.29", features = ["socket", "net"] }
prost = "0.13"
serde_json = "1"
tokio = { version = "1", features = ["full"] }
tonic = { version = "0.12", features = ["tls"] }
which = "*"
