[package]
name = "megane"
version = "0.1.0"
edition = "2021"
publish = false

[dependencies]
anyhow = "1"
async-trait = "0.1"
backtrace = "0.3"
chrono = "0.4"
clap = "4"
crossterm = "0.25"
lazy_static = "1"
log = "0.4"
log4rs = "1"
rusoto_core = { version = "0.48", default-features = false, features = ["rustls"] }
rusoto_credential = "0.48"
rusoto_iam = { version = "0.48", default-features = false, features = ["rustls"] }
rusoto_logs = { version = "0.48", default-features = false, features = ["rustls"] }
rusoto_sts = { version = "0.48", default-features = false, features = ["rustls"] }
tokio = { version = "1", features = ["macros", "rt-multi-thread", "sync", "time"] }
tui = { version = "0.19", default-features = false, features = ["crossterm"] }
