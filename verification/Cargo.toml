[package]
name = "covidd"
version = "0.1.0"
edition = "2021"
publish = false

[dependencies]
chrono = { version = "0.4", features = ["serde"] }
clap = { version = "4", features = ["derive"] }
color-eyre = "0.6"
crossterm = "0.25"
csv = "1"
directories = "5"
eyre = "0.6"
fs2 = "0.4"
humantime = "2"
locale_config = "0.3"
minreq = { version = "2", features = ["https", "json-using-serde"] }
serde = { version = "1", features = ["derive"] }
serde_json = "1"
tracing = "0.1"
tracing-error = "0.2"
tracing-subscriber = { version = "0.3", features = ["env-filter"] }
tui = "0.19"
