[package]
name = "github_deployment"
version = "0.1.0"
edition = "2021"
publish = false

[dependencies]
serde_json = "1"
curl = "0.4"
clap = "4"
