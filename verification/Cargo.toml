[package]
name = "usereport"
version = "0.1.0"
edition = "2021"
publish = false

[dependencies]
atty = "0.2"
chrono = { version = "0.4", features = ["serde"] }
env_logger = "0.7"
exitfailure = "0.5"
failure = "0.1"
handlebars = "3"
human-panic = "1"
indicatif = "0.15"
log = "0.4"
prettytable-rs = "0.8"
serde = { version = "1", features = ["derive"] }
serde_json = "1"
shellwords = "1"
snafu = "0.6"
structopt = "0.3"
subprocess = "0.2"
tempfile = "3"
toml = "0.5"
uname = "0.1"
