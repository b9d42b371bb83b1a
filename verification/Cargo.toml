[package]
name = "launch_agent"
version = "0.1.0"
edition = "2021"
publish = false

[dependencies]
dirs = "*"
handlebars = "*"
structopt = "0.3"
thiserror = "*"
which = "*"

[dev-dependencies]
regex = "1"
serde_json = "1"
