[package]
name = "rmusic-tui"
version = "0.1.0"
edition = "2021"
publish = false

[dependencies]
anyhow = "=1.0.104"
clap = { version = "=4.6.7", features = ["derive"] }
cpal = "=0.15.3"
futures = "=0.3.34"
log = "=0.4.34"
ratatui = { version = "=0.29.0", features = ["unstable-widget-ref"] }
ratatui-eventInput = "=0.2.0"
sea-orm = { version = "=1.1.20", default-features = false }
tui-logger = "=0.17.4"
